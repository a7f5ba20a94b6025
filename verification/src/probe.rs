//! Asking whether a blob is there.
//!
//! The answer is advisory: it serves to decide whether a fetch is worth
//! trying. So every status but 200 means no, and only a failure of the
//! transport is an error.

use crate::error::{Error, ErrorView, TransportFailure};
use crate::request::{Method, Request};
use vstd::prelude::*;

verus! {

/// What a probe amounts to when the transport reports `response`: the blob is
/// there if and only if the status is 200, and a failure of the transport is
/// passed on.
pub open spec fn probed(response: Result<u16, Seq<char>>) -> Result<bool, ErrorView> {
    match response {
        Ok(status) => Ok(status == 200),
        Err(message) => Err(ErrorView::Transport(message)),
    }
}

/// A probe whose request is yet to be answered. As a mathematical value it is
/// the URL that is asked.
#[derive(Debug, PartialEq, Eq)]
pub struct Probe {
    url: String,
}

impl View for Probe {
    type V = Seq<char>;

    closed spec fn view(&self) -> Seq<char> {
        self.url@
    }
}

impl Probe {
    /// A probe for the blob at `url`.
    pub fn new(url: String) -> (probe: Probe)
        ensures
            probe@ == url@,
    {
        Probe { url }
    }

    /// The request to send: one for the headers only.
    pub fn request(&self) -> (request: Request)
        ensures
            request.method == Method::Head,
            request.url@ == self@,
    {
        Request { method: Method::Head, url: self.url.clone() }
    }

    /// Takes what the transport reports of the request. The blob is there if
    /// the status is 200 and is not there on every other status, whatever it
    /// is. Where the transport failed, the failure is passed on as
    /// [`Error::Transport`].
    pub fn on_response(self, response: Result<u16, TransportFailure>) -> (found: Result<
        bool,
        Error,
    >)
        ensures
            match found {
                Ok(there) => probed(crate::fetch::response_view(response)) == Ok::<
                    bool,
                    ErrorView,
                >(there),
                Err(error) => probed(crate::fetch::response_view(response)) == Err::<
                    bool,
                    ErrorView,
                >(error@),
            },
    {
        match response {
            Ok(status) => Ok(status == 200),
            Err(failure) => Err(Error::Transport(failure.message)),
        }
    }
}

} // verus!
