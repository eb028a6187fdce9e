//! What can go wrong in a call, and what a call to the server brought back.
use vstd::prelude::*;

verus! {

/// A failed client call.
#[derive(Debug, PartialEq, Eq)]
pub enum ClientError {
    /// The connection to the server could not be opened.
    Connection(String),
    /// Writing the request or reading the response failed.
    Transport(String),
    /// The response broke the expected HTTP framing or JSON structure.
    Protocol(String),
    /// The exchange went through but held no generated text; carries the body.
    EmptyResponse(String),
    /// A prompt was asked for with no model given and none bound.
    NoModelSelected,
}

/// How one request to the server went, as the transport saw it.
#[derive(Debug, PartialEq, Eq)]
pub enum Exchange {
    /// The connection could not be opened.
    Unreachable(String),
    /// The request could not be written.
    WriteFailed(String),
    /// The response could not be read.
    ReadFailed(String),
    /// The whole response, read until the server closed the connection.
    Received(String),
}

} // verus!
