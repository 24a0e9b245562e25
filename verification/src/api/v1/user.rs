//! Requests about users.

use vstd::prelude::*;
use vstd::string::*;
use crate::app::{Body, BodyView, Response, ResponseView, STATUS_INTERNAL, STATUS_OK};
use crate::db::user::{UserData, UserDataView};
use crate::text::{lowercase, to_lowercase};

verus! {

/// The pattern that matches every text in which `lowered` occurs.
pub open spec fn pattern_of(lowered: Seq<char>) -> Seq<char> {
    "%"@ + lowered + "%"@
}

/// The pattern for a query that is in lower case already.
pub fn wrap_pattern(lowered: &str) -> (p: String)
    ensures
        p@ == pattern_of(lowered@),
{
    "%".to_string().concat(lowered).concat("%")
}

/// The pattern by which the storage looks for the users that `query` means:
/// the query in lower case, anywhere in the text.
pub fn search_pattern(query: &str) -> (p: String)
    ensures
        p@ == pattern_of(lowercase(query@)),
{
    let lowered = to_lowercase(query);
    wrap_pattern(lowered.as_str())
}

pub open spec fn msg_search_failed() -> Seq<char> {
    "Failed to get events"@
}

/// The answer to a search for users, given what the storage found.
pub open spec fn users_found(found: Result<Seq<UserDataView>, Seq<char>>) -> ResponseView {
    match found {
        Ok(users) => ResponseView::plain(STATUS_OK, BodyView::Users(users)),
        Err(_) => ResponseView::failure(STATUS_INTERNAL, msg_search_failed()),
    }
}

/// Answers a search for users.
pub fn user_search(found: Result<Vec<UserData>, String>) -> (r: Response)
    ensures
        r@ == users_found(
            match found {
                Ok(users) => Ok(users.deep_view()),
                Err(e) => Err(e@),
            },
        ),
{
    match found {
        Ok(users) => Response::plain(STATUS_OK, Body::Users(users)),
        Err(_) => Response::failure(STATUS_INTERNAL, "Failed to get events"),
    }
}

} // verus!
