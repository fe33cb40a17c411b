//! The one failure shape that callers see.
use vstd::prelude::*;
use crate::status::{Status, status_line_of, lemma_status_line_nonempty};

verus! {

/// A caller-facing error: a short message, a numeric status code with its
/// status line, and, where known, the underlying failure's description.
pub struct ClientError {
    pub message: String,
    pub code: u16,
    pub status: String,
    pub reason: Option<String>,
}

/// The reason of an error, as a view.
pub open spec fn reason_view(reason: Option<String>) -> Option<Seq<char>> {
    match reason {
        Some(text) => Some(text@),
        None => None,
    }
}

/// The error of `message` under status `code`, with no underlying reason.
pub fn graphql_error(message: String, code: &Status) -> (r: ClientError)
    ensures
        r.message@ == message@,
        r.code == code.view_code(),
        100 <= r.code <= 999,
        r.status@ == status_line_of(code.view_code()),
        r.status@.len() > 0,
        r.reason.is_none(),
{
    let status = code.to_line();
    proof {
        lemma_status_line_nonempty(code.view_code());
    }
    ClientError { message, code: code.as_u16(), status, reason: None }
}

/// Wraps a failure, given by its description `reason`, into the error of
/// `message` under status `code`; the description is kept as the reason.
pub fn as_graphql_error(message: &str, code: &Status, reason: String) -> (r: ClientError)
    ensures
        r.message@ == message@,
        r.code == code.view_code(),
        100 <= r.code <= 999,
        r.status@ == status_line_of(code.view_code()),
        r.status@.len() > 0,
        r.reason matches Some(text) && text@ == reason@,
{
    let status = code.to_line();
    proof {
        lemma_status_line_nonempty(code.view_code());
    }
    ClientError { message: message.to_owned(), code: code.as_u16(), status, reason: Some(reason) }
}

/// The error that a query made of several fetches reports for the failure
/// `err` of one of them: its message and its reason, under status `code`.
pub fn as_aggregate_error(err: ClientError, code: &Status) -> (r: ClientError)
    ensures
        r.message@ == err.message@,
        r.code == code.view_code(),
        100 <= r.code <= 999,
        r.status@ == status_line_of(code.view_code()),
        r.status@.len() > 0,
        reason_view(r.reason) == reason_view(err.reason),
{
    let status = code.to_line();
    proof {
        lemma_status_line_nonempty(code.view_code());
    }
    ClientError { message: err.message, code: code.as_u16(), status, reason: err.reason }
}

} // verus!
