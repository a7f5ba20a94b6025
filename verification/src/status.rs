//! What a response's status says about its body.
//!
//! A status in 200-299 is a success: the body is the blob. A status in
//! 400-499 is a client error: the store refused the request, and the body may
//! say why. Every other status is unexpected, and the body of such a response
//! is not even read.

use crate::error::{outcome_view, Error, ErrorView};
use vstd::prelude::*;

verus! {

/// The three kinds of status.
#[derive(Clone, Copy, Debug, PartialEq, Eq, Structural)]
pub enum StatusClass {
    /// 200-299.
    Success,
    /// 400-499: the store refused the request.
    Rejected,
    /// Anything else.
    Unexpected,
}

/// The kind of `status`.
pub open spec fn status_class(status: u16) -> StatusClass {
    if 200 <= status && status < 300 {
        StatusClass::Success
    } else if 400 <= status && status < 500 {
        StatusClass::Rejected
    } else {
        StatusClass::Unexpected
    }
}

/// Whether the body of a response with `status` is to be read: it is, unless
/// the status is unexpected.
pub open spec fn body_wanted(status: u16) -> bool {
    status_class(status) != StatusClass::Unexpected
}

/// What a response with `status` and `body` amounts to: the body where the
/// status is a success, an error that keeps the body where the store refused
/// the request, an error without it otherwise.
pub open spec fn classified(status: u16, body: Seq<u8>) -> Result<Seq<u8>, ErrorView> {
    match status_class(status) {
        StatusClass::Success => Ok(body),
        StatusClass::Rejected => Err(ErrorView::Rejected { status, len: body.len(), body }),
        StatusClass::Unexpected => Err(ErrorView::UnexpectedHttpStatus { status }),
    }
}

/// The kind of `status`.
pub fn classify_status(status: u16) -> (class: StatusClass)
    ensures
        class == status_class(status),
{
    if 200 <= status && status < 300 {
        StatusClass::Success
    } else if 400 <= status && status < 500 {
        StatusClass::Rejected
    } else {
        StatusClass::Unexpected
    }
}

/// Decides, before any of the body is read, whether a response with `status`
/// is worth reading: an unexpected status ends the operation here.
pub fn check_status(status: u16) -> (checked: Result<(), Error>)
    ensures
        match checked {
            Ok(_) => body_wanted(status),
            Err(error) => !body_wanted(status) && error == (Error::UnexpectedHttpStatus {
                status,
            }),
        },
{
    match classify_status(status) {
        StatusClass::Unexpected => Err(Error::UnexpectedHttpStatus { status }),
        _ => Ok(()),
    }
}

/// Classifies a response whose body has been read in full.
pub fn classify(status: u16, body: Vec<u8>) -> (outcome: Result<Vec<u8>, Error>)
    ensures
        outcome_view(outcome) == classified(status, body@),
{
    match classify_status(status) {
        StatusClass::Success => Ok(body),
        StatusClass::Rejected => {
            let len = body.len();
            Err(Error::Rejected { status, len, body })
        },
        StatusClass::Unexpected => Err(Error::UnexpectedHttpStatus { status }),
    }
}

} // verus!
