use vstd::prelude::*;

verus! {

/// Failures that coordination and queue set-up report to their callers.
#[derive(Debug, Clone)]
pub enum Error {
    /// A Redis command or client failed.
    Redis(String),
    /// The configuration cannot be used.
    Config(String),
    /// A connection could not be made.
    Connection(String),
}

/// An `Error` with its message taken as characters.
pub enum ErrorView {
    Redis(Seq<char>),
    Config(Seq<char>),
    Connection(Seq<char>),
}

impl View for Error {
    type V = ErrorView;

    open spec fn view(&self) -> ErrorView {
        match self {
            Error::Redis(m) => ErrorView::Redis(m@),
            Error::Config(m) => ErrorView::Config(m@),
            Error::Connection(m) => ErrorView::Connection(m@),
        }
    }
}

/// A result whose error is taken by its view.
pub open spec fn result_view<T>(r: Result<T, Error>) -> Result<T, ErrorView> {
    match r {
        Ok(v) => Ok(v),
        Err(e) => Err(e@),
    }
}

/// A context followed by `": "` and the detail of the failure.
pub open spec fn detailed_message(context: Seq<char>, detail: Seq<char>) -> Seq<char> {
    context + ": "@ + detail
}

/// Builds the message `context: detail`.
pub fn detailed(context: &str, detail: &str) -> (message: String)
    ensures
        message@ == detailed_message(context@, detail@),
{
    let mut message = String::from_str(context);
    message.append(": ");
    message.append(detail);
    message
}

} // verus!
