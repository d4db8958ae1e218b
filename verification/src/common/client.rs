//! What the client decides about a response once the request has come
//! back: which status is a page and which is a failure.

use vstd::prelude::*;
use crate::common::error::{Error, ErrorView};
use crate::engine::{fetch_error, FetchFailure, FetchFailureView};
use crate::text::chain;

verus! {

/// The user agent that the client names in its requests.
pub const USER_AGENT_TEXT: &'static str = "Mozilla/5.0 (Windows NT 10.0; Win64; x64)";

/// The status of a response that carries the page.
pub const STATUS_OK: u16 = 200;

/// The status of a response for a page that does not exist.
pub const STATUS_NOT_FOUND: u16 = 404;

/// The status of a response for a page that is private.
pub const STATUS_FORBIDDEN: u16 = 403;

/// The failure that a response with the status `code` is, where `text` is
/// how the status is written out; none for the status that carries the
/// page.
pub open spec fn status_failure(code: u16, text: Seq<char>) -> Option<FetchFailureView> {
    if code == STATUS_OK {
        None
    } else if code == STATUS_NOT_FOUND {
        Some(FetchFailureView::NotFound)
    } else if code == STATUS_FORBIDDEN {
        Some(FetchFailureView::Forbidden)
    } else {
        Some(FetchFailureView::Transport("HTTP "@ + text))
    }
}

/// The failure that a response with the status `code` is, if it is one.
pub fn classify_status(code: u16, text: &str) -> (failure: Option<FetchFailure>)
    ensures
        match failure {
            Some(f) => status_failure(code, text@) == Some(f@),
            None => status_failure(code, text@) is None,
        },
{
    if code == STATUS_OK {
        None
    } else if code == STATUS_NOT_FOUND {
        Some(FetchFailure::NotFound)
    } else if code == STATUS_FORBIDDEN {
        Some(FetchFailure::Forbidden)
    } else {
        Some(FetchFailure::Transport(chain("HTTP ", text)))
    }
}

/// What a caller sees of a response to the request for `url`: nothing
/// where the status carries the page, and else the error of the failure.
pub open spec fn response_check(url: Seq<char>, code: u16, text: Seq<char>) -> Result<
    (),
    ErrorView,
> {
    match status_failure(code, text) {
        None => Ok(()),
        Some(failure) => Err(fetch_error(url, failure)),
    }
}

/// Checks the status of the response to the request for `url`.
pub fn check_response_errors(url: &str, code: u16, text: &str) -> (res: Result<(), Error>)
    ensures
        match res {
            Ok(_) => response_check(url@, code, text@) is Ok,
            Err(e) => response_check(url@, code, text@) == Err::<(), _>(e@),
        },
{
    match classify_status(code, text) {
        None => Ok(()),
        Some(failure) => Err(failure.into_error(url)),
    }
}

} // verus!
