use vstd::prelude::*;

pub mod encode;
pub mod interpret;
pub mod lang;
pub mod query;

verus! {

/// The three terminal failure kinds of a lookup.
///
/// Every failure is fatal to the invocation: nothing is retried and no
/// partial result is ever produced.
#[derive(Clone, Copy, Debug, PartialEq, Eq, Structural)]
pub enum LookupError {
    /// The endpoint built from the language code is not a well-formed URL.
    InvalidEndpoint,
    /// The network call itself failed. A nonexistent language subdomain
    /// shows up as a connection failure, so this kind covers both.
    LanguageNotFound,
    /// The response could not be decoded as the expected schema, or it
    /// held no page entries.
    NotFound,
}

impl LookupError {
    /// The message shown to the user for this failure.
    pub fn message(&self) -> (r: String)
        ensures
            r@ == match *self {
                LookupError::InvalidEndpoint => "Invalid endpoint"@,
                LookupError::LanguageNotFound => "That language does not exist"@,
                LookupError::NotFound => "Not found..."@,
            },
    {
        match self {
            LookupError::InvalidEndpoint => "Invalid endpoint".to_owned(),
            LookupError::LanguageNotFound => "That language does not exist".to_owned(),
            LookupError::NotFound => "Not found...".to_owned(),
        }
    }
}

} // verus!
