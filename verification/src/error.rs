//! The single runtime error kind raised by emitted model methods.

use vstd::prelude::*;

verus! {

/// The error signalled by every fallible method of an emitted model.
///
/// Each variant stands for one fixed message; see [`OrdanticError::message`].
#[derive(Clone, Copy, Debug, PartialEq, Eq, Structural)]
pub enum OrdanticError {
    /// A relational operator other than equals / not-equals was requested.
    NotImplemented,
    /// The text codec refused to encode a value or a schema description.
    FailedToSerialize,
    /// The text codec could not decode the input text.
    FailedToDeserialize,
}

impl OrdanticError {
    /// The fixed message carried by this error, as a character sequence.
    pub open spec fn spec_message(self) -> Seq<char> {
        match self {
            OrdanticError::NotImplemented => "not implemented"@,
            OrdanticError::FailedToSerialize => "failed to serialize"@,
            OrdanticError::FailedToDeserialize => "failed to deserialize"@,
        }
    }

    /// Returns the fixed message carried by this error.
    pub fn message(&self) -> (text: String)
        ensures
            text@ == self.spec_message(),
    {
        match self {
            OrdanticError::NotImplemented => "not implemented".to_string(),
            OrdanticError::FailedToSerialize => "failed to serialize".to_string(),
            OrdanticError::FailedToDeserialize => "failed to deserialize".to_string(),
        }
    }
}

} // verus!
