//! The failure taxonomy of the generator.
//!
//! Every failure is detected while a single declaration is processed and
//! aborts generation for that declaration; there is no partial output.

use vstd::prelude::*;

verus! {

/// Why generation of one declaration failed.
#[derive(Debug, Clone, Copy, PartialEq, Eq, Structural)]
pub enum GenError {
    /// No receiver (self-like) parameter was found.
    MissingReceiver,
    /// No parameter named "msg" was found.
    MissingMessageParameter,
    /// The stateful convention was requested but no parameter named "state" was found.
    MissingStateParameter,
    /// The function declares no return type.
    MissingReturnType,
    /// The return type is not a named generic with exactly two type arguments.
    InvalidReturnType,
    /// The type declaration carries no well-formed "error" attribute binding.
    MissingErrorAttribute,
}

impl GenError {
    /// A short diagnostic text naming the violated constraint.
    pub fn message(&self) -> (r: &'static str)
        ensures
            r@ == self.message_text(),
    {
        match self {
            GenError::MissingReceiver => "missing receiver parameter",
            GenError::MissingMessageParameter => "missing parameter named msg",
            GenError::MissingStateParameter => "missing parameter named state",
            GenError::MissingReturnType => "missing return type",
            GenError::InvalidReturnType => "return type is not a two-argument named generic",
            GenError::MissingErrorAttribute => "missing or malformed error attribute",
        }
    }

    /// The text that `message` returns for each variant.
    pub open spec fn message_text(&self) -> Seq<char> {
        match self {
            GenError::MissingReceiver => "missing receiver parameter"@,
            GenError::MissingMessageParameter => "missing parameter named msg"@,
            GenError::MissingStateParameter => "missing parameter named state"@,
            GenError::MissingReturnType => "missing return type"@,
            GenError::InvalidReturnType => "return type is not a two-argument named generic"@,
            GenError::MissingErrorAttribute => "missing or malformed error attribute"@,
        }
    }
}

} // verus!
