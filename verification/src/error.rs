//! The error type shared by the bar and its modules.

use vstd::prelude::*;

verus! {

/// An error described by a message.
#[derive(Debug, Clone)]
pub struct Error(pub String);

impl View for Error {
    type V = Seq<char>;

    /// The message of the error.
    open spec fn view(&self) -> Seq<char> {
        self.0@
    }
}

impl Error {
    /// An error with the given message.
    pub fn new(item: String) -> (e: Error)
        ensures
            e@ == item@,
    {
        Error(item)
    }

    /// The message of the error, as an owned string.
    pub fn to_string(&self) -> (s: String)
        ensures
            s@ == self@,
    {
        self.0.clone()
    }
}

impl From<String> for Error {
    /// An error with the given message.
    fn from(error: String) -> (e: Error)
        ensures
            e@ == error@,
    {
        Error(error)
    }
}

impl vstd::std_specs::convert::FromSpecImpl<String> for Error {
    open spec fn obeys_from_spec() -> bool {
        true
    }

    open spec fn from_spec(error: String) -> Error {
        Error(error)
    }
}

impl<'a> From<&'a str> for Error {
    /// An error with the given message.
    fn from(error: &'a str) -> (e: Error)
        ensures
            e@ == error@,
    {
        Error(error.to_owned())
    }
}

impl<'a> vstd::std_specs::convert::FromSpecImpl<&'a str> for Error {
    /// Two strings of the same text need not be the same value, so the
    /// conversion is stated by the text of its result, in the `ensures`
    /// of `from`.
    open spec fn obeys_from_spec() -> bool {
        false
    }

    open spec fn from_spec(error: &'a str) -> Error {
        arbitrary()
    }
}

} // verus!
