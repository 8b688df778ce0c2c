//! Outcome types shared by the request handlers: what a handler decided,
//! stated as plain values for the HTTP layer to realize.

use vstd::prelude::*;

verus! {

/// A failure a page handler reports instead of a page: the singleton
/// profile row is missing (an unrecoverable configuration error), or the
/// requested record does not exist (a plain-text not-found reply).
#[derive(Clone, Copy, Debug, PartialEq, Eq, Structural)]
pub enum PageError {
    MissingProfile,
    NotFound,
}

/// What an admin handler decided: bounce an anonymous session to the login
/// page, redirect to a list page after an action, reply not-found with a
/// plain-text body, or render a page with the given data.
pub enum AdminOutcome<T> {
    RedirectLogin,
    Redirect { location: String },
    NotFound { body: String },
    Page { data: T },
}

} // verus!
