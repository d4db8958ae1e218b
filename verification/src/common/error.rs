//! The error that the library's operations fail with.

use vstd::prelude::*;
use crate::text::{chain, chars_of, is_text};

verus! {

/// Why an operation failed.
#[derive(Debug, Clone)]
pub enum Error {
    /// The request could not be carried out.
    Http(String),
    /// A page's markup could not be read.
    HtmlParse,
    /// A page could not be loaded.
    PageLoad { url: String, message: String },
    /// The server answered with something that is no page.
    InvalidResponse,
    /// The page is private.
    PrivateRoute,
    /// A user name has characters that no user name has.
    InvalidUsername(String),
    /// The site knows no film under this slug.
    MovieNotFound(String),
    /// A text or a fragment did not have the expected form.
    Parse(String),
    /// A value could not be written out or read back.
    Serialization(String),
    /// An address is malformed.
    UrlParse(String),
}

/// An `Error` with its texts as character sequences.
pub enum ErrorView {
    Http(Seq<char>),
    HtmlParse,
    PageLoad { url: Seq<char>, message: Seq<char> },
    InvalidResponse,
    PrivateRoute,
    InvalidUsername(Seq<char>),
    MovieNotFound(Seq<char>),
    Parse(Seq<char>),
    Serialization(Seq<char>),
    UrlParse(Seq<char>),
}

impl View for Error {
    type V = ErrorView;

    open spec fn view(&self) -> ErrorView {
        match self {
            Error::Http(detail) => ErrorView::Http(detail@),
            Error::HtmlParse => ErrorView::HtmlParse,
            Error::PageLoad { url, message } => ErrorView::PageLoad {
                url: url@,
                message: message@,
            },
            Error::InvalidResponse => ErrorView::InvalidResponse,
            Error::PrivateRoute => ErrorView::PrivateRoute,
            Error::InvalidUsername(name) => ErrorView::InvalidUsername(name@),
            Error::MovieNotFound(slug) => ErrorView::MovieNotFound(slug@),
            Error::Parse(detail) => ErrorView::Parse(detail@),
            Error::Serialization(detail) => ErrorView::Serialization(detail@),
            Error::UrlParse(detail) => ErrorView::UrlParse(detail@),
        }
    }
}

/// The kinds of failure that a caller tells apart.
#[derive(Clone, Copy, PartialEq, Eq, Structural, Debug)]
pub enum FailureClass {
    /// The site has no such page or film.
    NotFound,
    /// The page is private.
    Forbidden,
    /// The request did not get through.
    Transport,
    /// What came back, or what was handed in, did not have the expected
    /// form.
    Malformed,
}

/// The kind of failure that an error is. A page that could not be loaded
/// was not found where its message says so, and was lost in transport
/// otherwise.
pub open spec fn class_of(e: ErrorView) -> FailureClass {
    match e {
        ErrorView::PageLoad { url, message } => if message == "Page not found"@ {
            FailureClass::NotFound
        } else {
            FailureClass::Transport
        },
        ErrorView::MovieNotFound(_) => FailureClass::NotFound,
        ErrorView::PrivateRoute => FailureClass::Forbidden,
        ErrorView::Http(_) => FailureClass::Transport,
        _ => FailureClass::Malformed,
    }
}

/// The sentence that describes an error to a reader.
pub open spec fn description(e: ErrorView) -> Seq<char> {
    match e {
        ErrorView::Http(detail) => "HTTP request failed: "@ + detail,
        ErrorView::HtmlParse => "Failed to parse HTML"@,
        ErrorView::PageLoad { url, message } => "Page load error for URL "@ + url + ": "@
            + message,
        ErrorView::InvalidResponse => "Invalid response from server"@,
        ErrorView::PrivateRoute => "Private route access denied"@,
        ErrorView::InvalidUsername(name) => "Invalid username: "@ + name,
        ErrorView::MovieNotFound(slug) => "Movie not found: "@ + slug,
        ErrorView::Parse(detail) => "Parsing error: "@ + detail,
        ErrorView::Serialization(detail) => "Serialization error: "@ + detail,
        ErrorView::UrlParse(detail) => "URL parsing error: "@ + detail,
    }
}

impl Error {
    /// A parsing error with the given detail.
    pub fn parse(detail: &str) -> (e: Error)
        ensures
            e@ == ErrorView::Parse(detail@),
    {
        Error::Parse(detail.to_owned())
    }

    /// The kind of failure that this error is.
    pub fn class(&self) -> (class: FailureClass)
        ensures
            class == class_of(self@),
    {
        match self {
            Error::PageLoad { url, message } => if is_text(
                &chars_of(message.as_str()),
                "Page not found",
            ) {
                FailureClass::NotFound
            } else {
                FailureClass::Transport
            },
            Error::MovieNotFound(_) => FailureClass::NotFound,
            Error::PrivateRoute => FailureClass::Forbidden,
            Error::Http(_) => FailureClass::Transport,
            _ => FailureClass::Malformed,
        }
    }

    /// The sentence that describes this error to a reader.
    pub fn message(&self) -> (out: String)
        ensures
            out@ == description(self@),
    {
        match self {
            Error::Http(detail) => chain("HTTP request failed: ", detail.as_str()),
            Error::HtmlParse => "Failed to parse HTML".to_owned(),
            Error::PageLoad { url, message } => {
                let head = chain("Page load error for URL ", url.as_str());
                let head = chain(head.as_str(), ": ");
                chain(head.as_str(), message.as_str())
            },
            Error::InvalidResponse => "Invalid response from server".to_owned(),
            Error::PrivateRoute => "Private route access denied".to_owned(),
            Error::InvalidUsername(name) => chain("Invalid username: ", name.as_str()),
            Error::MovieNotFound(slug) => chain("Movie not found: ", slug.as_str()),
            Error::Parse(detail) => chain("Parsing error: ", detail.as_str()),
            Error::Serialization(detail) => chain("Serialization error: ", detail.as_str()),
            Error::UrlParse(detail) => chain("URL parsing error: ", detail.as_str()),
        }
    }
}

} // verus!
