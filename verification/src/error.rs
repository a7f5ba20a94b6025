//! What can go wrong between asking for a blob and holding it.

use vstd::prelude::*;

verus! {

/// The transport could not complete a network call: no connection, a broken
/// one, a timeout. The message is the transport's own.
#[derive(Clone, Debug, PartialEq, Eq)]
pub struct TransportFailure {
    pub message: String,
}

impl View for TransportFailure {
    type V = Seq<char>;

    open spec fn view(&self) -> Seq<char> {
        self.message@
    }
}

/// Why an operation yields no result.
#[derive(Clone, Debug, PartialEq, Eq)]
pub enum Error {
    /// The digest string is not `algorithm:hex` for a supported algorithm.
    InvalidDigestFormat,
    /// The endpoint, the blob name and the digest do not make a URL.
    UrlParse,
    /// The network call failed; the transport's message is passed on as it came.
    Transport(String),
    /// The transport failed while the body was being received in chunks.
    DownloadFailed,
    /// The store answered with a client-error status. The body may describe
    /// the refusal, so it is kept.
    Rejected { status: u16, len: usize, body: Vec<u8> },
    /// The store answered with a status that is neither success nor client
    /// error. The body of such a response is never read.
    UnexpectedHttpStatus { status: u16 },
    /// The bytes received do not hash to the digest that was asked for.
    VerificationFailed,
}

/// An [`Error`] as a mathematical value.
pub enum ErrorView {
    InvalidDigestFormat,
    UrlParse,
    Transport(Seq<char>),
    DownloadFailed,
    Rejected { status: u16, len: nat, body: Seq<u8> },
    UnexpectedHttpStatus { status: u16 },
    VerificationFailed,
}

impl View for Error {
    type V = ErrorView;

    open spec fn view(&self) -> ErrorView {
        match *self {
            Error::InvalidDigestFormat => ErrorView::InvalidDigestFormat,
            Error::UrlParse => ErrorView::UrlParse,
            Error::Transport(message) => ErrorView::Transport(message@),
            Error::DownloadFailed => ErrorView::DownloadFailed,
            Error::Rejected { status, len, body } => ErrorView::Rejected {
                status,
                len: len as nat,
                body: body@,
            },
            Error::UnexpectedHttpStatus { status } => ErrorView::UnexpectedHttpStatus { status },
            Error::VerificationFailed => ErrorView::VerificationFailed,
        }
    }
}

/// The result of a fetch as a mathematical value: the bytes of the blob, or
/// the error.
pub open spec fn outcome_view(outcome: Result<Vec<u8>, Error>) -> Result<Seq<u8>, ErrorView> {
    match outcome {
        Ok(bytes) => Ok(bytes@),
        Err(error) => Err(error@),
    }
}

} // verus!
