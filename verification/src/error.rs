//! What can go wrong.

use vstd::prelude::*;

verus! {

/// An error that the client reports.
#[derive(Debug, Clone)]
pub enum ClientError {
    /// The server sent a text that is no JSON document, or a message of no
    /// known type. `text` is what it sent.
    InvalidServerResponse { text: String },
}

impl ClientError {
    /// The error for a server's text that cannot be understood.
    pub fn invalid_server_response(text: &str) -> (res: ClientError)
        ensures
            res is InvalidServerResponse,
            res->text@ == text@,
    {
        ClientError::InvalidServerResponse { text: text.to_owned() }
    }
}

} // verus!
