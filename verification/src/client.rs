//! The messages that a client sends, and the JSON envelope of each.

use crate::json::{json_model, json_object, json_option, json_string, json_text, json_to_string, Json};
use serde_json::Value;
use vstd::prelude::*;

verus! {

/// A message from the client to the server.
#[derive(Debug)]
pub enum GraphQLMessageFromClient {
    ConnectionInit { connection_params: Value },
    ConnectionTerminate,
    Start { id: String, query: String, variables: Option<Value>, operation_name: Option<String> },
    Stop { id: String },
}

/// A client message as a mathematical value.
pub enum ClientMessage {
    ConnectionInit { connection_params: Json },
    ConnectionTerminate,
    Start {
        id: Seq<char>,
        query: Seq<char>,
        variables: Option<Json>,
        operation_name: Option<Seq<char>>,
    },
    Stop { id: Seq<char> },
}

impl View for GraphQLMessageFromClient {
    type V = ClientMessage;

    open spec fn view(&self) -> ClientMessage {
        match self {
            GraphQLMessageFromClient::ConnectionInit { connection_params } => {
                ClientMessage::ConnectionInit { connection_params: json_model(*connection_params) }
            },
            GraphQLMessageFromClient::ConnectionTerminate => ClientMessage::ConnectionTerminate,
            GraphQLMessageFromClient::Start { id, query, variables, operation_name } => {
                ClientMessage::Start {
                    id: id@,
                    query: query@,
                    variables: json_option(*variables),
                    operation_name: match operation_name {
                        Some(name) => Some(name@),
                        None => None,
                    },
                }
            },
            GraphQLMessageFromClient::Stop { id } => ClientMessage::Stop { id: id@ },
        }
    }
}

/// What a `Start` message carries as its payload: the query, the variables
/// where there are any, and the operation's name where it has one.
pub open spec fn start_payload(
    query: Seq<char>,
    variables: Option<Json>,
    operation_name: Option<Seq<char>>,
) -> Json {
    let only_query = map!["query"@ => Json::Str(query)];
    let with_variables = match variables {
        Some(variables) => only_query.insert("variables"@, variables),
        None => only_query,
    };
    Json::Object(
        match operation_name {
            Some(name) => with_variables.insert("operationName"@, Json::Str(name)),
            None => with_variables,
        },
    )
}

impl ClientMessage {
    /// The tag under the key `type`.
    pub open spec fn tag(self) -> Seq<char> {
        match self {
            ClientMessage::ConnectionInit { .. } => "connection_init"@,
            ClientMessage::ConnectionTerminate => "connection_terminate"@,
            ClientMessage::Start { .. } => "start"@,
            ClientMessage::Stop { .. } => "stop"@,
        }
    }

    /// The operation that the message is about, where it is about one.
    pub open spec fn id(self) -> Option<Seq<char>> {
        match self {
            ClientMessage::Start { id, .. } => Some(id),
            ClientMessage::Stop { id } => Some(id),
            _ => None,
        }
    }

    /// What stands under the key `payload`, where the message has one.
    pub open spec fn payload(self) -> Option<Json> {
        match self {
            ClientMessage::ConnectionInit { connection_params } => Some(connection_params),
            ClientMessage::Start { query, variables, operation_name, .. } => Some(
                start_payload(query, variables, operation_name),
            ),
            _ => None,
        }
    }

    /// The envelope: an object with the tag, with the id where the message
    /// has one, and with the payload where it has one.
    pub open spec fn envelope(self) -> Json {
        let only_tag = map!["type"@ => Json::Str(self.tag())];
        let with_id = match self.id() {
            Some(id) => only_tag.insert("id"@, Json::Str(id)),
            None => only_tag,
        };
        Json::Object(
            match self.payload() {
                Some(payload) => with_id.insert("payload"@, payload),
                None => with_id,
            },
        )
    }

    /// A message about an operation names it: its id is not empty.
    pub open spec fn well_formed(self) -> bool {
        match self.id() {
            Some(id) => id.len() > 0,
            None => true,
        }
    }
}

impl GraphQLMessageFromClient {
    /// The envelope of the message as a JSON value.
    pub fn envelope(&self) -> (res: Value)
        ensures
            json_model(res) == self@.envelope(),
    {
        let mut members = serde_json::Map::new();
        match self {
            GraphQLMessageFromClient::ConnectionInit { connection_params } => {
                members.insert("type".to_owned(), json_string("connection_init".to_owned()));
                members.insert("payload".to_owned(), connection_params.clone());
            },
            GraphQLMessageFromClient::ConnectionTerminate => {
                members.insert("type".to_owned(), json_string("connection_terminate".to_owned()));
            },
            GraphQLMessageFromClient::Start { id, query, variables, operation_name } => {
                let mut payload = serde_json::Map::new();
                payload.insert("query".to_owned(), json_string(query.clone()));
                if let Some(variables) = variables {
                    payload.insert("variables".to_owned(), variables.clone());
                }
                if let Some(name) = operation_name {
                    payload.insert("operationName".to_owned(), json_string(name.clone()));
                }
                members.insert("type".to_owned(), json_string("start".to_owned()));
                members.insert("id".to_owned(), json_string(id.clone()));
                members.insert("payload".to_owned(), json_object(payload));
            },
            GraphQLMessageFromClient::Stop { id } => {
                members.insert("type".to_owned(), json_string("stop".to_owned()));
                members.insert("id".to_owned(), json_string(id.clone()));
            },
        }
        json_object(members)
    }

    /// The text that goes over the wire: the envelope, serialised.
    pub fn get_message(&self) -> (res: String)
        ensures
            res@ == json_text(self@.envelope()),
    {
        json_to_string(&self.envelope())
    }
}

/// The payload of a `Start` message holds the query, and the variables and
/// the operation's name exactly where they were given: a key is left out
/// where there is nothing to put under it, and holds what was given where
/// there is, be it a null.
pub proof fn lemma_start_payload_members(
    query: Seq<char>,
    variables: Option<Json>,
    operation_name: Option<Seq<char>>,
)
    ensures
        start_payload(query, variables, operation_name) is Object,
        ({
            let members = start_payload(query, variables, operation_name)->Object_0;
            &&& members.contains_key("query"@) && members["query"@] == Json::Str(query)
            &&& members.contains_key("variables"@) <==> variables is Some
            &&& variables is Some ==> members["variables"@] == variables->0
            &&& members.contains_key("operationName"@) <==> operation_name is Some
            &&& operation_name is Some ==> members["operationName"@] == Json::Str(
                operation_name->0,
            )
            &&& forall|key: Seq<char>| #[trigger]
                members.contains_key(key) ==> key == "query"@ || key == "variables"@ || key
                    == "operationName"@
        }),
{
    reveal_strlit("query");
    reveal_strlit("variables");
    reveal_strlit("operationName");
    assert("query"@.len() == 5 && "variables"@.len() == 9 && "operationName"@.len() == 13);
}

/// The envelope of a message holds its tag under `type`, and an id and a
/// payload exactly where the message has them.
pub proof fn lemma_envelope_members(message: ClientMessage)
    ensures
        message.envelope() is Object,
        ({
            let members = message.envelope()->Object_0;
            &&& members.contains_key("type"@) && members["type"@] == Json::Str(message.tag())
            &&& members.contains_key("id"@) <==> message.id() is Some
            &&& message.id() is Some ==> members["id"@] == Json::Str(message.id()->0)
            &&& members.contains_key("payload"@) <==> message.payload() is Some
            &&& message.payload() is Some ==> members["payload"@] == message.payload()->0
            &&& forall|key: Seq<char>| #[trigger]
                members.contains_key(key) ==> key == "type"@ || key == "id"@ || key == "payload"@
        }),
{
    reveal_strlit("type");
    reveal_strlit("id");
    reveal_strlit("payload");
    assert("type"@.len() == 4 && "id"@.len() == 2 && "payload"@.len() == 7);
}

} // verus!
