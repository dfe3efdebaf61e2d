//! The settings given on the command line.

use vstd::prelude::*;

verus! {

/// The model to ask, where one is named, and the key that the
/// chat-completion service asks for.
pub struct Cli {
    /// The model named on the command line, if any.
    pub model: Option<String>,
    /// The key sent with every chat-completion request.
    pub api_key: String,
}

impl Cli {
    /// The settings with the given model and key.
    pub fn new(model: Option<String>, api_key: String) -> (r: Cli)
        ensures
            r.model == model,
            r.api_key == api_key,
    {
        Cli { model, api_key }
    }

    /// The model named on the command line, if any.
    pub fn model(&self) -> (r: Option<&String>)
        ensures
            r is Some <==> self.model is Some,
            r is Some ==> *r->0 == self.model->0,
    {
        self.model.as_ref()
    }

    /// The key sent with every chat-completion request.
    pub fn api_key(&self) -> (r: &String)
        ensures
            *r == self.api_key,
    {
        &self.api_key
    }
}

} // verus!
