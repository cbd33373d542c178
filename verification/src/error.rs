//! Failures of one invocation, as the invoking user gets to see them.

use vstd::prelude::*;

verus! {

/// Why an invocation stopped short.
///
/// A `User` failure carries text that is shown to the invoking user as it
/// stands. An `Internal` failure carries detail for the operator's log; the
/// user is only told that something went wrong.
#[derive(Debug, PartialEq, Eq)]
pub enum RequestError {
    User(String),
    Internal(String),
}

/// The mathematical value of a [`RequestError`].
pub enum RequestErrorView {
    User(Seq<char>),
    Internal(Seq<char>),
}

impl View for RequestError {
    type V = RequestErrorView;

    open spec fn view(&self) -> RequestErrorView {
        match self {
            RequestError::User(text) => RequestErrorView::User(text@),
            RequestError::Internal(text) => RequestErrorView::Internal(text@),
        }
    }
}

/// The mathematical value of an invocation's result.
pub open spec fn result_view(result: Result<(), RequestError>) -> Result<(), RequestErrorView> {
    match result {
        Ok(()) => Ok(()),
        Err(error) => Err(error@),
    }
}

/// What the invoking user is told when an invocation fails for a reason
/// that is not theirs to fix.
pub open spec fn generic_apology() -> Seq<char> {
    "Something went wrong while handling your request."@
}

/// The text that the invoking user gets to see of a failure: a `User`
/// failure's own text, and for an `Internal` failure a fixed apology that
/// gives nothing of the detail away.
pub open spec fn shown_text(error: RequestErrorView) -> Seq<char> {
    match error {
        RequestErrorView::User(shown) => shown,
        RequestErrorView::Internal(_) => generic_apology(),
    }
}

impl RequestError {
    /// A failure whose text is meant for the invoking user.
    pub fn user(text: &str) -> (error: RequestError)
        ensures
            error@ == RequestErrorView::User(text@),
    {
        RequestError::User(text.to_owned())
    }

    /// A failure whose text is meant for the operator's log.
    pub fn internal(text: &str) -> (error: RequestError)
        ensures
            error@ == RequestErrorView::Internal(text@),
    {
        RequestError::Internal(text.to_owned())
    }

    /// Whether the failure's text may be shown to the invoking user.
    pub fn is_user_facing(&self) -> (facing: bool)
        ensures
            facing == (self@ is User),
    {
        match self {
            RequestError::User(_) => true,
            RequestError::Internal(_) => false,
        }
    }

    /// The text that the invoking user gets to see: a `User` failure's own
    /// text, and for an `Internal` failure a fixed apology that gives
    /// nothing of the detail away.
    pub fn public_text(&self) -> (text: String)
        ensures
            text@ == shown_text(self@),
    {
        match self {
            RequestError::User(shown) => shown.clone(),
            RequestError::Internal(_) => "Something went wrong while handling your request.".to_owned(),
        }
    }

    /// The failure's own text, for the log.
    pub fn detail(&self) -> (text: &str)
        ensures
            text@ == match self@ {
                RequestErrorView::User(held) => held,
                RequestErrorView::Internal(held) => held,
            },
    {
        match self {
            RequestError::User(held) => held.as_str(),
            RequestError::Internal(held) => held.as_str(),
        }
    }
}

} // verus!
