//! Fetching a blob whose body the transport reads in one piece.
//!
//! A [`Fetch`] stands for a request that is yet to be answered. Told the
//! status of the response, it either ends the operation or becomes a
//! [`BodyRead`], which waits for the body. Told the body, that one hands back
//! the blob, checked against its digest, or the error. There is no way to a
//! body but through a status that calls for one, and no way to a blob but
//! through the check.

use crate::digest::{Digest, DigestView};
use crate::error::{outcome_view, Error, ErrorView, TransportFailure};
use crate::request::{Method, Request};
use crate::status::{body_wanted, check_status, classified, classify, status_class, StatusClass};
use vstd::prelude::*;

verus! {

/// What the transport reports of a request as a mathematical value: the
/// status of the response, or the message of its failure.
pub open spec fn response_view(response: Result<u16, TransportFailure>) -> Result<u16, Seq<char>> {
    match response {
        Ok(status) => Ok(status),
        Err(failure) => Err(failure@),
    }
}

/// What the transport reports of a body as a mathematical value: its bytes,
/// or the message of its failure.
pub open spec fn body_view(body: Result<Vec<u8>, TransportFailure>) -> Result<Seq<u8>, Seq<char>> {
    match body {
        Ok(bytes) => Ok(bytes@),
        Err(failure) => Err(failure@),
    }
}

/// The status with which an operation goes on to the body, or the error with
/// which it ends before: the transport's failure, or an unexpected status.
pub open spec fn screened(response: Result<u16, Seq<char>>) -> Result<u16, ErrorView> {
    match response {
        Err(message) => Err(ErrorView::Transport(message)),
        Ok(status) => if body_wanted(status) {
            Ok(status)
        } else {
            Err(ErrorView::UnexpectedHttpStatus { status })
        },
    }
}

/// What a response with `status` and `body` amounts to for one who asked for
/// `digest`: the classification of the response, and for a body that is the
/// blob, the check against the digest.
pub open spec fn outcome(digest: DigestView, status: u16, body: Seq<u8>) -> Result<
    Seq<u8>,
    ErrorView,
> {
    match classified(status, body) {
        Ok(blob) => if digest.matches(blob) {
            Ok(blob)
        } else {
            Err(ErrorView::VerificationFailed)
        },
        Err(error) => Err(error),
    }
}

/// What a fetch of `digest` amounts to when the transport reports `response`
/// and then, if it is asked for the body, `body`.
pub open spec fn fetched(
    digest: DigestView,
    response: Result<u16, Seq<char>>,
    body: Result<Seq<u8>, Seq<char>>,
) -> Result<Seq<u8>, ErrorView> {
    match screened(response) {
        Err(error) => Err(error),
        Ok(status) => match body {
            Err(message) => Err(ErrorView::Transport(message)),
            Ok(bytes) => outcome(digest, status, bytes),
        },
    }
}

/// Decides on what the transport reports of a request whether the operation
/// goes on to the body.
pub fn screen(response: Result<u16, TransportFailure>) -> (screened_as: Result<u16, Error>)
    ensures
        match screened_as {
            Ok(status) => screened(response_view(response)) == Ok::<u16, ErrorView>(status),
            Err(error) => screened(response_view(response)) == Err::<u16, ErrorView>(error@),
        },
{
    match response {
        Err(failure) => Err(Error::Transport(failure.message)),
        Ok(status) => match check_status(status) {
            Ok(_) => Ok(status),
            Err(error) => Err(error),
        },
    }
}

/// Classifies a response whose body has been read in full and, where the body
/// is the blob, checks it against `digest`. A response that is an error is
/// passed on without a check.
pub fn conclude(digest: &Digest, status: u16, body: Vec<u8>) -> (result: Result<Vec<u8>, Error>)
    ensures
        outcome_view(result) == outcome(digest@, status, body@),
{
    match classify(status, body) {
        Err(error) => Err(error),
        Ok(blob) => match digest.verify(blob.as_slice()) {
            Ok(_) => Ok(blob),
            Err(error) => Err(error),
        },
    }
}

/// A fetch as a mathematical value: what is asked for, and where.
pub struct FetchView {
    pub digest: DigestView,
    pub url: Seq<char>,
}

/// A fetch whose request is yet to be answered.
#[derive(Debug, PartialEq, Eq)]
pub struct Fetch {
    digest: Digest,
    url: String,
}

impl View for Fetch {
    type V = FetchView;

    closed spec fn view(&self) -> FetchView {
        FetchView { digest: self.digest@, url: self.url@ }
    }
}

/// A fetch that waits for its body, as a mathematical value.
pub struct BodyReadView {
    pub digest: DigestView,
    pub status: u16,
}

/// A fetch whose response has a status that calls for the body.
#[derive(Debug, PartialEq, Eq)]
pub struct BodyRead {
    digest: Digest,
    status: u16,
}

impl View for BodyRead {
    type V = BodyReadView;

    closed spec fn view(&self) -> BodyReadView {
        BodyReadView { digest: self.digest@, status: self.status }
    }
}

impl Fetch {
    /// A fetch of the blob `digest`, to be asked for at `url`.
    pub fn new(digest: Digest, url: String) -> (fetch: Fetch)
        ensures
            fetch@ == (FetchView { digest: digest@, url: url@ }),
    {
        Fetch { digest, url }
    }

    /// The request to send.
    pub fn request(&self) -> (request: Request)
        ensures
            request.method == Method::Get,
            request.url@ == self@.url,
    {
        Request { method: Method::Get, url: self.url.clone() }
    }

    /// The digest that the blob is checked against.
    pub fn digest(&self) -> (digest: &Digest)
        ensures
            digest@ == self@.digest,
    {
        &self.digest
    }

    /// Takes what the transport reports of the request: the status of the
    /// response, or its own failure. The fetch goes on to the body where the
    /// status is a success or a client error. It ends with
    /// [`Error::UnexpectedHttpStatus`] on every other status, and with
    /// [`Error::Transport`] where the transport failed.
    pub fn on_response(self, response: Result<u16, TransportFailure>) -> (next: Result<
        BodyRead,
        Error,
    >)
        ensures
            match next {
                Ok(read) => screened(response_view(response)) == Ok::<u16, ErrorView>(
                    read@.status,
                ) && read@.digest == self@.digest,
                Err(error) => screened(response_view(response)) == Err::<u16, ErrorView>(error@),
            },
    {
        match screen(response) {
            Ok(status) => Ok(BodyRead { digest: self.digest, status }),
            Err(error) => Err(error),
        }
    }
}

impl BodyRead {
    /// The status is one that calls for the body.
    #[verifier::type_invariant]
    spec fn wants_body(&self) -> bool {
        body_wanted(self.status)
    }

    /// The status of the response: a success or a client error.
    pub fn status(&self) -> (status: u16)
        ensures
            status == self@.status,
            body_wanted(status),
    {
        proof {
            use_type_invariant(self);
        }
        self.status
    }

    /// Takes what the transport reports of the body: its bytes, or its own
    /// failure. A body that came with a success status is the blob, and it is
    /// handed back if it matches the digest and refused with
    /// [`Error::VerificationFailed`] if it does not. A body that came with a
    /// client error is kept in [`Error::Rejected`], unchecked.
    pub fn on_body(self, body: Result<Vec<u8>, TransportFailure>) -> (result: Result<
        Vec<u8>,
        Error,
    >)
        ensures
            outcome_view(result) == match body_view(body) {
                Ok(bytes) => outcome(self@.digest, self@.status, bytes),
                Err(message) => Err(ErrorView::Transport(message)),
            },
    {
        match body {
            Err(failure) => Err(Error::Transport(failure.message)),
            Ok(bytes) => conclude(&self.digest, self.status, bytes),
        }
    }
}

/// A fetch hands out a blob only where the response was a success, the body
/// arrived, and its bytes match the digest; the blob is then the body as it
/// arrived. And a response that the store refused is passed on with its body
/// whatever the digest says: an error is never checked against it.
pub proof fn lemma_only_verified_blobs_come_out(
    digest: DigestView,
    response: Result<u16, Seq<char>>,
    body: Result<Seq<u8>, Seq<char>>,
)
    ensures
        fetched(digest, response, body) matches Ok(blob) ==> {
            &&& response matches Ok(status)
            &&& status_class(status) == StatusClass::Success
            &&& body == Ok::<Seq<u8>, Seq<char>>(blob)
            &&& digest.matches(blob)
        },
        response matches Ok(status) ==> status_class(status) == StatusClass::Rejected
            ==> match body {
            Ok(bytes) => fetched(digest, response, body) == Err::<Seq<u8>, ErrorView>(
                ErrorView::Rejected { status, len: bytes.len(), body: bytes },
            ),
            Err(message) => fetched(digest, response, body) == Err::<Seq<u8>, ErrorView>(
                ErrorView::Transport(message),
            ),
        },
{
}

} // verus!
