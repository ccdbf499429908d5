//! The failures that the lifecycle reports.

use vstd::prelude::*;

verus! {

/// Why a call on a configuration was refused.
#[derive(Debug, PartialEq, Eq)]
pub enum Error {
    /// The configuration does not validate; holds the name of a parameter
    /// whose constraint is broken.
    InvalidConfiguration(String),
    /// The configuration has no parameter of this name.
    UnknownParameter(String),
    /// The text (second field) is no value for the parameter (first field).
    ParseFailure(String, String),
}

/// An [`Error`] with its texts as sequences of characters.
pub enum ErrorView {
    InvalidConfiguration(Seq<char>),
    UnknownParameter(Seq<char>),
    ParseFailure(Seq<char>, Seq<char>),
}

impl View for Error {
    type V = ErrorView;

    open spec fn view(&self) -> ErrorView {
        match self {
            Error::InvalidConfiguration(parameter) => ErrorView::InvalidConfiguration(parameter@),
            Error::UnknownParameter(name) => ErrorView::UnknownParameter(name@),
            Error::ParseFailure(name, value) => ErrorView::ParseFailure(name@, value@),
        }
    }
}

impl Clone for Error {
    fn clone(&self) -> (copy: Self)
        ensures
            copy@ == self@,
    {
        match self {
            Error::InvalidConfiguration(parameter) => Error::InvalidConfiguration(
                parameter.clone(),
            ),
            Error::UnknownParameter(name) => Error::UnknownParameter(name.clone()),
            Error::ParseFailure(name, value) => Error::ParseFailure(name.clone(), value.clone()),
        }
    }
}

} // verus!
