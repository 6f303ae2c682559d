//! What every capability shares: its description for a model, and the
//! error of arguments that cannot be decoded.

use crate::document::Document;
use vstd::prelude::*;

verus! {

/// How a capability presents itself to a model: its name, what it does, and
/// the JSON schema of its arguments.
#[derive(Debug, PartialEq, Eq)]
pub struct ToolDefinition {
    pub name: String,
    pub description: String,
    pub parameters: Document,
}

/// An argument of one of the capabilities of this library.
#[derive(Clone, Copy, Debug, PartialEq, Eq, Structural)]
pub enum Argument {
    /// `prompt`, of the agent capability.
    Prompt,
    /// `query`, of the retrieval capability.
    Query,
    /// `top_n`, of the retrieval capability.
    TopN,
}

/// Why the arguments of a call could not be decoded. Such a call fails
/// before anything is executed.
#[derive(Clone, Copy, Debug, PartialEq, Eq, Structural)]
pub enum ArgsDecodeError {
    /// The arguments are not an object.
    NotAnObject,
    /// A required argument is missing.
    Missing(Argument),
    /// An argument is there, but not of the type or in the range asked for.
    Invalid(Argument),
}

} // verus!
