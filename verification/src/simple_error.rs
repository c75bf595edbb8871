//! A minimal error type holding one human-readable message.
//!
//! `SimpleError` is deliberately independent of the structured
//! [`CalculationError`](crate::calc::CalculationError) taxonomy: it carries
//! text and nothing else, for callers that need no structured inspection.

use vstd::prelude::*;
use vstd::string::StringExecFns;

verus! {

/// An error that is nothing but an owned message.
#[derive(Debug, PartialEq, Eq)]
pub struct SimpleError {
    message: String,
}

impl View for SimpleError {
    type V = Seq<char>;

    /// The message the error carries.
    closed spec fn view(&self) -> Seq<char> {
        self.message@
    }
}

impl SimpleError {
    /// Wraps the given message in a `SimpleError`.
    pub fn new(message: &str) -> (r: SimpleError)
        ensures
            r@ == message@,
    {
        SimpleError { message: String::from_str(message) }
    }

    /// The display text of the error: `SimpleError: ` followed by the message.
    pub fn to_display_string(&self) -> (r: String)
        ensures
            r@ == "SimpleError: "@ + self@,
    {
        String::from_str("SimpleError: ").concat(self.message.as_str())
    }
}

/// Accepts an age between 0 and 150 inclusive and rejects anything else
/// with a message saying which bound was broken.
pub fn validate_age(age: i32) -> (r: Result<i32, SimpleError>)
    ensures
        age < 0 ==> (r matches Err(e) && e@ == "Age cannot be negative"@),
        age > 150 ==> (r matches Err(e) && e@ == "Age seems unrealistic"@),
        0 <= age <= 150 ==> r == Ok::<i32, SimpleError>(age),
{
    if age < 0 {
        Err(SimpleError::new("Age cannot be negative"))
    } else if age > 150 {
        Err(SimpleError::new("Age seems unrealistic"))
    } else {
        Ok(age)
    }
}

} // verus!
