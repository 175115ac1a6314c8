//! Why a connection configuration could not be built.

use vstd::prelude::*;

verus! {

/// The ways building an [`crate::ApiInfo`] fails.
#[derive(Debug, PartialEq, Eq)]
pub enum Error {
    /// The base URL text is not a valid absolute URL.
    Url(url::ParseError),
    /// A mandatory environment entry is absent; holds the entry's name.
    MissingVariable(String),
    /// An environment entry does not hold valid text; holds the entry's name.
    InvalidEncoding(String),
}

/// An [`Error`] with its names as character sequences.
pub enum ErrorView {
    Url(url::ParseError),
    MissingVariable(Seq<char>),
    InvalidEncoding(Seq<char>),
}

impl View for Error {
    type V = ErrorView;

    open spec fn view(&self) -> ErrorView {
        match self {
            Error::Url(e) => ErrorView::Url(*e),
            Error::MissingVariable(name) => ErrorView::MissingVariable(name@),
            Error::InvalidEncoding(name) => ErrorView::InvalidEncoding(name@),
        }
    }
}

} // verus!
