//! The client: where the store is, and what can be asked of it.

use crate::digest::{parse_digest, Digest};
use crate::error::{Error, ErrorView};
use crate::fetch::{Fetch, FetchView};
use crate::probe::Probe;
use crate::request::{blob_endpoint, blob_url, url_of};
use crate::stream::{Aborted, StreamFetch};
use vstd::prelude::*;

verus! {

/// What is to be fetched, and where, when the blob `digest` of `name` is
/// asked of a store reached under `base`. The digest is read first, and a
/// string that denotes none ends the matter whatever the URL would be. The
/// URL is made of the digest string as it was given.
pub open spec fn planned(base: Seq<char>, name: Seq<char>, digest: Seq<char>) -> Result<
    FetchView,
    ErrorView,
> {
    match parse_digest(digest) {
        None => Err(ErrorView::InvalidDigestFormat),
        Some(wanted) => match url_of(blob_endpoint(base, name, digest)) {
            None => Err(ErrorView::UrlParse),
            Some(url) => Ok(FetchView { digest: wanted, url }),
        },
    }
}

/// A client of one store. As a mathematical value it is the address under
/// which the store is reached.
#[derive(Clone, Debug, PartialEq, Eq)]
pub struct Client {
    base_url: String,
}

impl View for Client {
    type V = Seq<char>;

    closed spec fn view(&self) -> Seq<char> {
        self.base_url@
    }
}

impl Client {
    /// A client of the store reached under `base_url`.
    pub fn new(base_url: &str) -> (client: Client)
        ensures
            client@ == base_url@,
    {
        Client { base_url: String::from_str(base_url) }
    }

    /// The address under which the store is reached.
    pub fn base_url(&self) -> (base_url: &str)
        ensures
            base_url@ == self@,
    {
        self.base_url.as_str()
    }

    /// Reads `digest` and finds the URL of the blob: what every fetch starts
    /// with.
    fn plan(&self, name: &str, digest: &str) -> (plan: Result<(Digest, String), Error>)
        ensures
            match plan {
                Ok((wanted, url)) => planned(self@, name@, digest@) == Ok::<FetchView, ErrorView>(
                    FetchView { digest: wanted@, url: url@ },
                ),
                Err(error) => planned(self@, name@, digest@) == Err::<FetchView, ErrorView>(
                    error@,
                ),
            },
    {
        let wanted = match Digest::parse(digest) {
            Ok(wanted) => wanted,
            Err(error) => {
                return Err(error);
            },
        };
        match blob_url(self.base_url.as_str(), name, digest) {
            Ok(url) => Ok((wanted, url)),
            Err(error) => Err(error),
        }
    }

    /// Prepares to ask whether the blob `digest` of `name` is in the store.
    ///
    /// The digest string goes into the URL as it is given and is not read as
    /// a digest: the question is whether something is there, not what. The
    /// only error is [`Error::UrlParse`], where the address is no URL.
    pub fn has_blob(&self, name: &str, digest: &str) -> (probe: Result<Probe, Error>)
        ensures
            match probe {
                Ok(probe) => url_of(blob_endpoint(self@, name@, digest@)) == Some(probe@),
                Err(error) => url_of(blob_endpoint(self@, name@, digest@)) is None && error
                    == Error::UrlParse,
            },
    {
        match blob_url(self.base_url.as_str(), name, digest) {
            Ok(url) => Ok(Probe::new(url)),
            Err(error) => Err(error),
        }
    }

    /// Prepares to fetch the blob `digest` of `name`, the body to be read in
    /// one piece.
    ///
    /// A string that denotes no digest is refused with
    /// [`Error::InvalidDigestFormat`], and an address that is no URL with
    /// [`Error::UrlParse`]. In both cases there is no fetch and so no request
    /// to send.
    pub fn get_blob(&self, name: &str, digest: &str) -> (fetch: Result<Fetch, Error>)
        ensures
            match fetch {
                Ok(fetch) => planned(self@, name@, digest@) == Ok::<FetchView, ErrorView>(fetch@),
                Err(error) => planned(self@, name@, digest@) == Err::<FetchView, ErrorView>(
                    error@,
                ),
            },
    {
        match self.plan(name, digest) {
            Ok((wanted, url)) => Ok(Fetch::new(wanted, url)),
            Err(error) => Err(error),
        }
    }

    /// Prepares to fetch the blob `digest` of `name`, the body to be received
    /// in chunks. `observed` says whether an observer is to hear of each
    /// chunk.
    ///
    /// The errors are those of [`Client::get_blob`]. An observer is released
    /// on each of them, as it is wherever a streamed fetch ends.
    pub fn get_blob_with_progress(&self, name: &str, digest: &str, observed: bool) -> (fetch:
        Result<StreamFetch, Aborted>)
        ensures
            match fetch {
                Ok(fetch) => planned(self@, name@, digest@) == Ok::<FetchView, ErrorView>(
                    FetchView { digest: fetch@.digest, url: fetch@.url },
                ) && fetch@.observed == observed,
                Err(aborted) => planned(self@, name@, digest@) == Err::<FetchView, ErrorView>(
                    aborted@.error,
                ) && aborted@.release_observer == observed,
            },
    {
        match self.plan(name, digest) {
            Ok((wanted, url)) => Ok(StreamFetch::new(wanted, url, observed)),
            Err(error) => Err(Aborted { release_observer: observed, error }),
        }
    }
}

} // verus!
