//! Errors reported by the library.

use vstd::prelude::*;

verus! {

/// An error of the OCR library.
#[derive(Debug, Clone)]
pub enum OCRError {
    /// A configuration value lies outside the range that `component` accepts.
    ValidationError { component: String, field: String, expected: String, actual: String },
    /// An input that the library cannot work with.
    InvalidInput { message: String },
}

/// The text by which an error is reported.
pub open spec fn error_message(e: OCRError) -> Seq<char> {
    match e {
        OCRError::ValidationError { component, field, expected, actual } => "validation error in "@
            + component@ + ": "@ + field@ + " must be in "@ + expected@ + ", got "@ + actual@,
        OCRError::InvalidInput { message } => "invalid input: "@ + message@,
    }
}

impl OCRError {
    /// Builds a validation error from its four parts.
    pub fn validation_error(component: &str, field: &str, expected: &str, actual: &str) -> (e:
        OCRError)
        ensures
            e matches OCRError::ValidationError { component: c, field: f, expected: x, actual: a }
                && c@ == component@ && f@ == field@ && x@ == expected@ && a@ == actual@,
    {
        OCRError::ValidationError {
            component: String::from_str(component),
            field: String::from_str(field),
            expected: String::from_str(expected),
            actual: String::from_str(actual),
        }
    }

    /// The message by which the error is reported.
    pub fn to_string(&self) -> (s: String)
        ensures
            s@ == error_message(*self),
    {
        match self {
            OCRError::ValidationError { component, field, expected, actual } => {
                let mut s = String::from_str("validation error in ");
                s.append(component.as_str());
                s.append(": ");
                s.append(field.as_str());
                s.append(" must be in ");
                s.append(expected.as_str());
                s.append(", got ");
                s.append(actual.as_str());
                s
            },
            OCRError::InvalidInput { message } => {
                let mut s = String::from_str("invalid input: ");
                s.append(message.as_str());
                s
            },
        }
    }
}

} // verus!
