use blob_client::client::Client;
use blob_client::digest::Digest;
use blob_client::error::{Error, TransportFailure};
use blob_client::fetch::{conclude, screen, Fetch};
use blob_client::probe::Probe;
use blob_client::request::{Method, Request};
use blob_client::stream::{Aborted, StreamFetch};

const HELLO_SHA256: &str =
    "sha256:e997afd18e5f6be004fc193aed2c90291e68ab2c7599a62538c935b7fca6ab0f";

fn url(digest: &str) -> String {
    format!("https://store.example/v2/app/blobs/{}", digest)
}

#[test]
fn a_client_keeps_its_base_url() {
    assert_eq!(Client::new("https://store.example").base_url(), "https://store.example");
}

#[test]
fn has_blob_asks_for_the_headers_of_the_blob() {
    let probe = Client::new("https://store.example").has_blob("app", HELLO_SHA256).unwrap();
    assert_eq!(
        probe.request(),
        Request { method: Method::Head, url: url(HELLO_SHA256) }
    );
}

#[test]
fn has_blob_takes_any_digest_string_that_makes_a_url() {
    let probe = Client::new("https://store.example").has_blob("app", "latest").unwrap();
    assert_eq!(probe.request().url, url("latest"));
}

#[test]
fn has_blob_refuses_what_makes_no_url() {
    assert_eq!(Client::new("store").has_blob("app", HELLO_SHA256), Err(Error::UrlParse));
}

#[test]
fn get_blob_asks_for_the_blob() {
    let fetch = Client::new("https://store.example").get_blob("app", HELLO_SHA256).unwrap();
    assert_eq!(fetch.request(), Request { method: Method::Get, url: url(HELLO_SHA256) });
    assert_eq!(fetch.digest(), &Digest::parse(HELLO_SHA256).unwrap());
    assert_eq!(fetch, Fetch::new(Digest::parse(HELLO_SHA256).unwrap(), url(HELLO_SHA256)));
}

#[test]
fn get_blob_refuses_a_digest_that_would_do_in_a_url() {
    let client = Client::new("https://store.example");
    assert!(client.has_blob("app", "sha256:abc").is_ok());
    assert_eq!(client.get_blob("app", "sha256:abc"), Err(Error::InvalidDigestFormat));
    assert_eq!(
        client.get_blob_with_progress("app", "sha256:abc", true),
        Err(Aborted { release_observer: true, error: Error::InvalidDigestFormat })
    );
}

#[test]
fn get_blob_reads_the_digest_before_it_makes_the_url() {
    let client = Client::new("no base");
    assert_eq!(client.get_blob("app", "sha256:abc"), Err(Error::InvalidDigestFormat));
    assert_eq!(client.get_blob("app", HELLO_SHA256), Err(Error::UrlParse));
    assert_eq!(
        client.get_blob_with_progress("app", HELLO_SHA256, false),
        Err(Aborted { release_observer: false, error: Error::UrlParse })
    );
}

#[test]
fn get_blob_with_progress_asks_for_the_blob() {
    let client = Client::new("https://store.example");
    let fetch = client.get_blob_with_progress("app", HELLO_SHA256, true).unwrap();
    assert_eq!(fetch.request(), Request { method: Method::Get, url: url(HELLO_SHA256) });
    assert_eq!(fetch.digest(), &Digest::parse(HELLO_SHA256).unwrap());
    assert!(fetch.observed());
    assert_eq!(
        fetch,
        StreamFetch::new(Digest::parse(HELLO_SHA256).unwrap(), url(HELLO_SHA256), true)
    );
    let fetch = client.get_blob_with_progress("app", HELLO_SHA256, false).unwrap();
    assert!(!fetch.observed());
}

#[test]
fn a_probe_answers_by_the_status() {
    assert_eq!(Probe::new(url("x")).on_response(Ok(200)), Ok(true));
    assert_eq!(Probe::new(url("x")).on_response(Ok(404)), Ok(false));
    assert_eq!(Probe::new(url("x")).on_response(Ok(500)), Ok(false));
    assert_eq!(
        Probe::new(url("x"))
            .on_response(Err(TransportFailure { message: "timed out".to_string() })),
        Err(Error::Transport("timed out".to_string()))
    );
}

#[test]
fn screen_lets_successes_and_client_errors_through() {
    assert_eq!(screen(Ok(200)), Ok(200));
    assert_eq!(screen(Ok(299)), Ok(299));
    assert_eq!(screen(Ok(404)), Ok(404));
    assert_eq!(screen(Ok(199)), Err(Error::UnexpectedHttpStatus { status: 199 }));
    assert_eq!(screen(Ok(300)), Err(Error::UnexpectedHttpStatus { status: 300 }));
    assert_eq!(screen(Ok(500)), Err(Error::UnexpectedHttpStatus { status: 500 }));
    assert_eq!(
        screen(Err(TransportFailure { message: "no route".to_string() })),
        Err(Error::Transport("no route".to_string()))
    );
}

#[test]
fn conclude_checks_a_success_and_nothing_else() {
    let digest = Digest::parse(HELLO_SHA256).unwrap();
    assert_eq!(conclude(&digest, 200, b"hello blob".to_vec()), Ok(b"hello blob".to_vec()));
    assert_eq!(conclude(&digest, 200, b"hello".to_vec()), Err(Error::VerificationFailed));
    assert_eq!(
        conclude(&digest, 404, b"hello blob".to_vec()),
        Err(Error::Rejected { status: 404, len: 10, body: b"hello blob".to_vec() })
    );
    assert_eq!(
        conclude(&digest, 500, b"hello blob".to_vec()),
        Err(Error::UnexpectedHttpStatus { status: 500 })
    );
}

#[test]
fn a_fetch_goes_on_to_the_body_by_the_status() {
    let fetch = || Fetch::new(Digest::parse(HELLO_SHA256).unwrap(), url(HELLO_SHA256));
    let read = fetch().on_response(Ok(206)).unwrap();
    assert_eq!(read.status(), 206);
    assert_eq!(read.on_body(Ok(b"hello blob".to_vec())), Ok(b"hello blob".to_vec()));
    assert_eq!(
        fetch().on_response(Ok(502)),
        Err(Error::UnexpectedHttpStatus { status: 502 })
    );
    let read = fetch().on_response(Ok(410)).unwrap();
    assert_eq!(
        read.on_body(Err(TransportFailure { message: "reset".to_string() })),
        Err(Error::Transport("reset".to_string()))
    );
}
