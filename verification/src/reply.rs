//! What comes back from the remote service, and the errors of a fetch.

use vstd::prelude::*;

verus! {

/// What a single request to the remote service came to.
#[derive(Debug, PartialEq, Eq)]
pub enum Reply<B> {
    /// The request got no answer: the cause, as the transport words it.
    Failed { cause: String },
    /// The service answered with `status`. `body` is what reading the body
    /// gave: the body, or the cause for which it could not be read. It is
    /// looked at only under a status of success.
    Answered { status: u16, body: Result<B, String> },
}

/// Why a fetch failed.
#[derive(Debug, PartialEq, Eq)]
pub enum FetchError {
    /// The service answered with a status other than success.
    NotFound { page: u16, sub_page: u16 },
    /// The request got no answer.
    Transport { cause: String },
    /// The service answered, but the body could not be read.
    Read { cause: String },
    /// The body was read, but it is no image that can be decoded.
    Decode,
}

/// Whether `status` is one of success: 200 to 299.
pub open spec fn is_success(status: u16) -> bool {
    200 <= status < 300
}

/// The body that a reply delivers for `page` and `sub_page`, or the error
/// that it stands for. The status is looked at before the body.
pub open spec fn screened<B>(reply: Reply<B>, page: u16, sub_page: u16) -> Result<B, FetchError> {
    match reply {
        Reply::Failed { cause } => Err(FetchError::Transport { cause }),
        Reply::Answered { status, body } => if !is_success(status) {
            Err(FetchError::NotFound { page, sub_page })
        } else {
            match body {
                Ok(delivered) => Ok(delivered),
                Err(cause) => Err(FetchError::Read { cause }),
            }
        },
    }
}

/// Whether `status` is one of success: 200 to 299.
pub fn status_is_success(status: u16) -> (success: bool)
    ensures
        success == is_success(status),
{
    200 <= status && status < 300
}

/// The body that `reply` delivers for `page` and `sub_page`, or the error
/// that it stands for.
pub fn screen<B>(reply: Reply<B>, page: u16, sub_page: u16) -> (outcome: Result<B, FetchError>)
    ensures
        outcome == screened(reply, page, sub_page),
{
    match reply {
        Reply::Failed { cause } => Err(FetchError::Transport { cause }),
        Reply::Answered { status, body } => {
            if !status_is_success(status) {
                Err(FetchError::NotFound { page, sub_page })
            } else {
                match body {
                    Ok(delivered) => Ok(delivered),
                    Err(cause) => Err(FetchError::Read { cause }),
                }
            }
        },
    }
}

/// A status other than success gives `NotFound` for the page asked for,
/// whatever the body.
pub proof fn lemma_refused_is_not_found<B>(
    status: u16,
    body: Result<B, String>,
    page: u16,
    sub_page: u16,
)
    requires
        !is_success(status),
    ensures
        screened(Reply::Answered { status, body }, page, sub_page) == Err::<B, FetchError>(
            FetchError::NotFound { page, sub_page },
        ),
{
}

} // verus!
