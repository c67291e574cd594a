//! A command-line client for chat, completion and edit requests against two
//! remote model providers. The library holds the request-scoped logic: option
//! validation, request-payload construction, and rendering of the provider's
//! result as raw text, JSON or YAML. The network call itself and the terminal
//! surface live outside the library.

use vstd::prelude::*;

pub mod options;
pub mod output;
pub mod request;
pub mod text;

verus! {

/// The output format a result is rendered in.
#[derive(Clone, Copy, Debug, PartialEq, Eq, Structural)]
pub enum Output {
    /// Plain text
    Raw,
    /// JSON
    Json,
    /// YAML
    Yaml,
}

impl Default for Output {
    fn default() -> (r: Self)
        ensures
            r == Output::Raw,
    {
        Output::Raw
    }
}

} // verus!
