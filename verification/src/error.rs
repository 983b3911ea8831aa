//! The error taxonomy for leaf field validation.

use vstd::prelude::*;

verus! {

/// A validation failure recorded on a single field when a commit attempt
/// cannot turn the field's raw text into a domain value.
///
/// Submission failures are a separate, caller-chosen type and are never
/// folded into this one: a submission can fail for reasons unrelated to any
/// field even when every field passed local validation.
#[derive(Clone, Copy, Debug, PartialEq, Eq, Structural)]
pub enum FormError {
    /// The raw text is not a well-formed value of the field's kind.
    Parse,
    /// The text is well-formed but the value lies outside the configured bounds.
    OutOfRange,
}

impl FormError {
    /// A short description suitable for rendering next to the field.
    pub fn message(&self) -> (r: &'static str)
        ensures
            *self == FormError::Parse ==> r@ == "not a valid value"@,
            *self == FormError::OutOfRange ==> r@ == "value out of range"@,
    {
        match self {
            FormError::Parse => "not a valid value",
            FormError::OutOfRange => "value out of range",
        }
    }
}

} // verus!
