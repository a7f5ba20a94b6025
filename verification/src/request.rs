//! The requests that the transport is asked to send.

use crate::error::Error;
use vstd::prelude::*;

verus! {

/// The method of a request.
#[derive(Clone, Copy, Debug, PartialEq, Eq, Structural)]
pub enum Method {
    /// Asks for the headers only.
    Head,
    /// Asks for the body too.
    Get,
}

/// A request for the transport to send. The transport adds what it knows
/// about: credentials, default headers.
#[derive(Clone, Debug, PartialEq, Eq)]
pub struct Request {
    pub method: Method,
    pub url: String,
}

/// The address of the blob `digest` of `name` at a store reached under
/// `base`, before it is read as a URL.
pub open spec fn blob_endpoint(base: Seq<char>, name: Seq<char>, digest: Seq<char>) -> Seq<char> {
    base + "/v2/"@ + name + "/blobs/"@ + digest
}

/// What `url::Url::parse` makes of `text`: the URL written out again in its
/// normal form, or nothing where `text` is no absolute URL.
pub uninterp spec fn url_of(text: Seq<char>) -> Option<Seq<char>>;

#[verifier::external_type_specification]
#[verifier::external_body]
pub struct ExParseError(url::ParseError);

/// `reqwest::Url::parse`, which is `url::Url::parse`: reads `text` as an
/// absolute URL and hands back its serialization, or the reason why `text` is
/// none. The outcome depends on `text` alone.
#[verifier::external_body]
fn parse_url(text: &str) -> (parsed: Result<String, url::ParseError>)
    ensures
        match parsed {
            Ok(url) => url_of(text@) == Some(url@),
            Err(_) => url_of(text@) is None,
        },
{
    reqwest::Url::parse(text).map(String::from)
}

/// Writes out the address of the blob `digest` of `name` at a store reached
/// under `base`. The three parts are used as they are given.
pub fn endpoint(base: &str, name: &str, digest: &str) -> (text: String)
    ensures
        text@ == blob_endpoint(base@, name@, digest@),
{
    let mut text = String::from_str(base);
    text.append("/v2/");
    text.append(name);
    text.append("/blobs/");
    text.append(digest);
    text
}

/// Reads an address as a URL.
pub fn read_url(text: &str) -> (url: Result<String, Error>)
    ensures
        match url {
            Ok(url) => url_of(text@) == Some(url@),
            Err(error) => url_of(text@) is None && error == Error::UrlParse,
        },
{
    match parse_url(text) {
        Ok(url) => Ok(url),
        Err(_) => Err(Error::UrlParse),
    }
}

/// The URL of the blob `digest` of `name` at a store reached under `base`.
pub fn blob_url(base: &str, name: &str, digest: &str) -> (url: Result<String, Error>)
    ensures
        match url {
            Ok(url) => url_of(blob_endpoint(base@, name@, digest@)) == Some(url@),
            Err(error) => url_of(blob_endpoint(base@, name@, digest@)) is None && error
                == Error::UrlParse,
        },
{
    let text = endpoint(base, name, digest);
    read_url(text.as_str())
}

} // verus!
