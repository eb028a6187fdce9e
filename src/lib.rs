//! A client for a local model-serving HTTP API: request texts, response
//! framing and the interpretation of the server's JSON replies. The transport
//! itself (sockets, the server process) stays with the caller, which hands
//! each exchange's outcome back as an [`error::Exchange`].
use vstd::prelude::*;

pub mod error;
pub mod json;
pub mod request;
pub mod response;
pub mod text;

use crate::error::ClientError;
use crate::request::{generate_body, generate_request_text, generation_request};

verus! {

/// The host the server listens on.
pub const DEFAULT_HOST: &'static str = "127.0.0.1";

/// The port the server listens on.
pub const DEFAULT_PORT: u16 = 11434;

/// A client handle: the version the server reported when the handle was made,
/// and the model that prompts without an explicit model go to.
#[derive(Debug)]
pub struct Ollama {
    pub version: String,
    pub model: Option<String>,
}

impl Ollama {
    /// A handle for a server that reported `version`, bound to `model`.
    pub fn from_parts(version: String, model: Option<String>) -> (r: Ollama)
        ensures
            r.version == version,
            r.model == model,
    {
        Ollama { version, model }
    }

    /// Binds the handle to `model` for later prompts.
    pub fn switch_model(&mut self, model: String)
        ensures
            final(self).model == Some(model),
            final(self).version == old(self).version,
    {
        self.model = Some(model);
    }

    /// The model a prompt goes to: the one given when it is not empty, else the
    /// bound one when it is not empty, else none.
    pub open spec fn chosen_model(&self, model: Seq<char>) -> Option<Seq<char>> {
        if model.len() > 0 {
            Some(model)
        } else {
            match self.model {
                Some(m) => if m@.len() > 0 {
                    Some(m@)
                } else {
                    None
                },
                None => None,
            }
        }
    }

    /// The model a prompt goes to, or `NoModelSelected`.
    pub fn select_model(&self, model: &str) -> (r: Result<String, ClientError>)
        ensures
            match self.chosen_model(model@) {
                Some(m) => r matches Ok(x) && x@ == m,
                None => r matches Err(ClientError::NoModelSelected),
            },
    {
        if !model.is_empty() {
            return Ok(String::from_str(model));
        }
        match &self.model {
            Some(m) => {
                if m.as_str().is_empty() {
                    Err(ClientError::NoModelSelected)
                } else {
                    Ok(m.clone())
                }
            },
            None => Err(ClientError::NoModelSelected),
        }
    }

    /// The generation request for `prompt`, sent to the chosen model; with no
    /// model to choose, `NoModelSelected`, before anything is sent.
    pub fn prompt_request(&self, model: &str, prompt: &str) -> (r: Result<String, ClientError>)
        ensures
            match self.chosen_model(model@) {
                Some(m) => r matches Ok(x) && x@ == generate_request_text(
                    generate_body(m, prompt@),
                ),
                None => r matches Err(ClientError::NoModelSelected),
            },
    {
        let m = self.select_model(model)?;
        Ok(generation_request(m.as_str(), prompt))
    }
}

} // verus!
