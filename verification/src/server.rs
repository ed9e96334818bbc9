//! The messages that a server sends, and how they are read from the JSON
//! envelope.

use crate::client::ClientMessage;
use crate::error::ClientError;
use crate::json::{
    json_member, json_model, json_models, json_parse, parse_json, text_member, Json,
};
use crate::text::same_text;
use serde_json::Value;
use vstd::prelude::*;

verus! {

/// A message from the server to the client.
#[derive(Debug)]
pub enum GraphQLMessageFromServer {
    ConnectionError { error: Value },
    ConnectionAck,
    ConnectionKeepAlive,
    Data { id: String, data: Value, errors: Option<Vec<Value>> },
    Error { id: String, error: Value },
    Complete { id: String },
}

/// A server message as a mathematical value.
pub enum ServerMessage {
    ConnectionError { error: Json },
    ConnectionAck,
    ConnectionKeepAlive,
    Data { id: Seq<char>, data: Json, errors: Option<Seq<Json>> },
    Error { id: Seq<char>, error: Json },
    Complete { id: Seq<char> },
}

impl View for GraphQLMessageFromServer {
    type V = ServerMessage;

    open spec fn view(&self) -> ServerMessage {
        match self {
            GraphQLMessageFromServer::ConnectionError { error } => ServerMessage::ConnectionError {
                error: json_model(*error),
            },
            GraphQLMessageFromServer::ConnectionAck => ServerMessage::ConnectionAck,
            GraphQLMessageFromServer::ConnectionKeepAlive => ServerMessage::ConnectionKeepAlive,
            GraphQLMessageFromServer::Data { id, data, errors } => ServerMessage::Data {
                id: id@,
                data: json_model(*data),
                errors: match errors {
                    Some(errors) => Some(json_models(errors@)),
                    None => None,
                },
            },
            GraphQLMessageFromServer::Error { id, error } => ServerMessage::Error {
                id: id@,
                error: json_model(*error),
            },
            GraphQLMessageFromServer::Complete { id } => ServerMessage::Complete { id: id@ },
        }
    }
}

/// The message that an envelope stands for; `None` where its tag is none of
/// the six that a server sends. The tag is the string under `type`, the id
/// the string under `id`; a member that is missing or of another kind counts
/// as an empty string, or as null.
pub open spec fn server_message(envelope: Json) -> Option<ServerMessage> {
    let tag = envelope.member("type"@).text();
    let id = envelope.member("id"@).text();
    let payload = envelope.member("payload"@);
    if tag == "connection_error"@ {
        Some(ServerMessage::ConnectionError { error: payload })
    } else if tag == "connection_ack"@ {
        Some(ServerMessage::ConnectionAck)
    } else if tag == "ka"@ {
        Some(ServerMessage::ConnectionKeepAlive)
    } else if tag == "data"@ {
        Some(
            ServerMessage::Data {
                id,
                data: payload.member("data"@),
                errors: payload.member("errors"@).items(),
            },
        )
    } else if tag == "error"@ {
        Some(ServerMessage::Error { id, error: payload })
    } else if tag == "complete"@ {
        Some(ServerMessage::Complete { id })
    } else {
        None
    }
}

/// The message that a text stands for; `None` where the text is no JSON
/// document or the document no server message.
pub open spec fn parsed_message(text: Seq<char>) -> Option<ServerMessage> {
    match json_parse(text) {
        Some(envelope) => server_message(envelope),
        None => None,
    }
}

/// A copy of the items of `value` where it is an array.
fn array_items(value: &Value) -> (res: Option<Vec<Value>>)
    ensures
        match res {
            Some(items) => json_model(*value).items() == Some(json_models(items@)),
            None => json_model(*value).items() is None,
        },
{
    match value.as_array() {
        Some(items) => {
            let copy = items.clone();
            assert(json_models(copy@) =~= json_models(items@));
            Some(copy)
        },
        None => None,
    }
}

impl GraphQLMessageFromServer {
    /// Reads a message from its envelope. `None` where the envelope's tag is
    /// not one that a server sends.
    pub fn from_value(value: &Value) -> (res: Option<GraphQLMessageFromServer>)
        ensures
            match res {
                Some(message) => server_message(json_model(*value)) == Some(message@),
                None => server_message(json_model(*value)) is None,
            },
    {
        let tag = text_member(value, "type");
        let tag = tag.as_str();
        if same_text(tag, "connection_error") {
            Some(
                GraphQLMessageFromServer::ConnectionError {
                    error: json_member(value, "payload").clone(),
                },
            )
        } else if same_text(tag, "connection_ack") {
            Some(GraphQLMessageFromServer::ConnectionAck)
        } else if same_text(tag, "ka") {
            Some(GraphQLMessageFromServer::ConnectionKeepAlive)
        } else if same_text(tag, "data") {
            let payload = json_member(value, "payload");
            Some(
                GraphQLMessageFromServer::Data {
                    id: text_member(value, "id"),
                    data: json_member(payload, "data").clone(),
                    errors: array_items(json_member(payload, "errors")),
                },
            )
        } else if same_text(tag, "error") {
            Some(
                GraphQLMessageFromServer::Error {
                    id: text_member(value, "id"),
                    error: json_member(value, "payload").clone(),
                },
            )
        } else if same_text(tag, "complete") {
            Some(GraphQLMessageFromServer::Complete { id: text_member(value, "id") })
        } else {
            None
        }
    }

    /// Reads a message from the text that the server sent. Fails, with the
    /// text in the error, where the text is no JSON document or its tag is
    /// not one that a server sends.
    pub fn parse(message: &str) -> (res: Result<GraphQLMessageFromServer, ClientError>)
        ensures
            match res {
                Ok(read) => parsed_message(message@) == Some(read@),
                Err(error) => {
                    &&& parsed_message(message@) is None
                    &&& error is InvalidServerResponse
                    &&& error->text@ == message@
                },
            },
    {
        match parse_json(message) {
            Ok(value) => match Self::from_value(&value) {
                Some(read) => Ok(read),
                None => Err(ClientError::invalid_server_response(message)),
            },
            Err(_) => Err(ClientError::invalid_server_response(message)),
        }
    }
}


/// The two directions share no tag: the envelope of a client's message is
/// never read as a message of the server.
pub proof fn lemma_client_message_is_no_server_message(message: ClientMessage)
    ensures
        message.envelope().member("type"@) == Json::Str(message.tag()),
        server_message(message.envelope()) is None,
{
    reveal_strlit("type");
    reveal_strlit("id");
    reveal_strlit("payload");
    reveal_strlit("connection_init");
    reveal_strlit("connection_terminate");
    reveal_strlit("start");
    reveal_strlit("stop");
    reveal_strlit("connection_error");
    reveal_strlit("connection_ack");
    reveal_strlit("ka");
    reveal_strlit("data");
    reveal_strlit("error");
    reveal_strlit("complete");
    assert("type"@ != "id"@) by {
        assert("type"@.len() != "id"@.len());
    }
    assert("type"@ != "payload"@) by {
        assert("type"@.len() != "payload"@.len());
    }
    let tag = message.tag();
    assert(tag != "connection_error"@) by {
        assert(tag.len() != "connection_error"@.len());
    }
    assert(tag != "connection_ack"@) by {
        assert(tag.len() != "connection_ack"@.len());
    }
    assert(tag != "ka"@) by {
        assert(tag.len() != "ka"@.len());
    }
    assert(tag != "data"@) by {
        assert(tag.len() != "data"@.len() || tag[0] != "data"@[0]);
    }
    assert(tag != "error"@) by {
        assert(tag.len() != "error"@.len() || tag[0] != "error"@[0]);
    }
    assert(tag != "complete"@) by {
        assert(tag.len() != "complete"@.len());
    }
}

} // verus!
