//! Why loading a rockspec can fail.

use vstd::prelude::*;
use crate::text::joined;

verus! {

/// Why a rockspec could not be loaded.
#[derive(Clone, Debug, PartialEq, Eq)]
pub enum RockspecError {
    /// The document could not be evaluated; `message` says why.
    Script { message: String },
    /// A partial rockspec declares `field`, which only the base rockspec may
    /// declare.
    ForbiddenField { field: String },
    /// What the document assigned to `field` does not have the shape of that
    /// field.
    FieldType { field: String },
}

/// The mathematical model of [`RockspecError`].
pub ghost enum RockspecFault {
    Script { message: Seq<char> },
    ForbiddenField { field: Seq<char> },
    FieldType { field: Seq<char> },
}

impl View for RockspecError {
    type V = RockspecFault;

    open spec fn view(&self) -> RockspecFault {
        match self {
            RockspecError::Script { message } => RockspecFault::Script { message: message@ },
            RockspecError::ForbiddenField { field } => RockspecFault::ForbiddenField {
                field: field@,
            },
            RockspecError::FieldType { field } => RockspecFault::FieldType { field: field@ },
        }
    }
}

impl RockspecFault {
    /// The cause in words.
    pub open spec fn message(self) -> Seq<char> {
        match self {
            RockspecFault::Script { message } => message,
            RockspecFault::ForbiddenField { field } => "field `"@ + field
                + "` should not be declared in extra.rockspec."@,
            RockspecFault::FieldType { field } => "field `"@ + field
                + "` does not have the expected type."@,
        }
    }
}

impl RockspecError {
    /// The cause in words.
    pub fn message(&self) -> (text: String)
        ensures
            text@ == self@.message(),
    {
        match self {
            RockspecError::Script { message } => message.clone(),
            RockspecError::ForbiddenField { field } => {
                let begun = joined("field `", field.as_str());
                joined(begun.as_str(), "` should not be declared in extra.rockspec.")
            },
            RockspecError::FieldType { field } => {
                let begun = joined("field `", field.as_str());
                joined(begun.as_str(), "` does not have the expected type.")
            },
        }
    }
}

} // verus!
