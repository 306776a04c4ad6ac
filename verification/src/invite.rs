//! The invite-link decision: optional display enrichment of a verdict.
//!
//! After analysis, an invite link is looked up for each flagged chat.
//! The lookup is a remote call made by the surrounding application; the
//! rules live here: a forbidden answer means "no link", not an error,
//! and a public-join-requests answer carries no link either. Two
//! attempts are made, a channel-shaped one and then a group-shaped one,
//! and the first that succeeds wins.

use vstd::prelude::*;
use crate::service::{ServiceError, FORBIDDEN_CODE};

verus! {

/// What the export-invite call answered.
#[derive(Debug, Clone, PartialEq, Eq)]
pub enum InviteResponse {
    /// An exported invite link.
    Exported(String),
    /// The chat takes public join requests; there is no link to show.
    PublicJoinRequests,
    /// The call failed.
    Failed(ServiceError),
}

/// Reads one invite answer: a link where one was exported, no link for
/// public join requests, no link (and no error) where the chat is
/// forbidden to the account, and the error itself otherwise.
pub open spec fn spec_interpret_invite_response(resp: InviteResponse) -> Result<
    Option<String>,
    ServiceError,
> {
    match resp {
        InviteResponse::Exported(link) => Result::Ok(Option::Some(link)),
        InviteResponse::PublicJoinRequests => Result::Ok(Option::None),
        InviteResponse::Failed(err) => match err {
            ServiceError::Rpc { code, .. } => {
                if code == FORBIDDEN_CODE {
                    Result::Ok(Option::None)
                } else {
                    Result::Err(err)
                }
            },
            ServiceError::Transport => Result::Err(err),
        },
    }
}

/// Reads one invite answer.
pub fn interpret_invite_response(resp: InviteResponse) -> (r: Result<
    Option<String>,
    ServiceError,
>)
    ensures
        r == spec_interpret_invite_response(resp),
{
    match resp {
        InviteResponse::Exported(link) => Result::Ok(Option::Some(link)),
        InviteResponse::PublicJoinRequests => Result::Ok(Option::None),
        InviteResponse::Failed(err) => match err {
            ServiceError::Rpc { code, value } => {
                if code == FORBIDDEN_CODE {
                    Result::Ok(Option::None)
                } else {
                    Result::Err(ServiceError::Rpc { code, value })
                }
            },
            ServiceError::Transport => Result::Err(ServiceError::Transport),
        },
    }
}

/// Combines the channel-shaped and group-shaped lookup attempts: the
/// first one wins where it succeeded, else the second stands, errors
/// and all.
pub fn combine_invite_attempts(
    first: Result<Option<String>, ServiceError>,
    second: Result<Option<String>, ServiceError>,
) -> (r: Result<Option<String>, ServiceError>)
    ensures
        (first is Ok ==> r == first),
        (first is Err ==> r == second),
{
    match first {
        Result::Ok(link) => Result::Ok(link),
        Result::Err(_) => second,
    }
}

} // verus!
