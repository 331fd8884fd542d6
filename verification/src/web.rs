//! Response values handed to the request front end.

use vstd::prelude::*;

use crate::network::NetworkCommandResponse;

verus! {

/// What one front-end request produced: a network response, or the chain
/// of error messages that explains why none could be produced.
#[derive(Debug)]
pub enum AppResponse {
    /// The command loop answered.
    Network(NetworkCommandResponse),
    /// The request failed; outermost message first.
    Error(Vec<String>),
}

/// The error list serialized to a front-end client.
#[derive(Clone, Debug)]
pub struct AppErrors {
    /// The messages of the failure, outermost first.
    pub errors: Vec<String>,
}

impl AppErrors {
    /// Wrap a list of error messages.
    pub fn new(errors: Vec<String>) -> (r: AppErrors)
        ensures
            r.errors == errors,
    {
        AppErrors { errors }
    }
}

} // verus!
