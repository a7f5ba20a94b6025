use blob_client::error::Error;
use blob_client::request::{blob_url, endpoint, read_url};

#[test]
fn endpoint_puts_the_parts_together_as_given() {
    assert_eq!(
        endpoint("https://store.example", "library/app", "sha256:abc"),
        "https://store.example/v2/library/app/blobs/sha256:abc"
    );
    assert_eq!(endpoint("", "", ""), "/v2//blobs/");
    assert_eq!(endpoint("a", "b", "c"), "a/v2/b/blobs/c");
}

#[test]
fn read_url_hands_back_the_url_in_its_normal_form() {
    assert_eq!(
        read_url("HTTPS://Store.Example:443/v2/../v2/app/blobs/x"),
        Ok("https://store.example/v2/app/blobs/x".to_string())
    );
    assert_eq!(read_url("http://store.example"), Ok("http://store.example/".to_string()));
}

#[test]
fn read_url_refuses_what_is_no_absolute_url() {
    assert_eq!(read_url("store.example/v2/app"), Err(Error::UrlParse));
    assert_eq!(read_url(""), Err(Error::UrlParse));
    assert_eq!(read_url("http://[::1/v2"), Err(Error::UrlParse));
}

#[test]
fn blob_url_is_the_endpoint_read_as_a_url() {
    assert_eq!(
        blob_url("https://store.example", "library/app", "sha256:abc"),
        Ok("https://store.example/v2/library/app/blobs/sha256:abc".to_string())
    );
    assert_eq!(
        blob_url("HTTP://STORE.example:80", "app", "x"),
        Ok("http://store.example/v2/app/blobs/x".to_string())
    );
}

#[test]
fn blob_url_refuses_a_base_that_makes_no_url() {
    assert_eq!(blob_url("", "app", "sha256:abc"), Err(Error::UrlParse));
    assert_eq!(blob_url("store.example", "app", "sha256:abc"), Err(Error::UrlParse));
    assert_eq!(blob_url("http://store.example:port", "app", "x"), Err(Error::UrlParse));
}
