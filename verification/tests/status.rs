use blob_client::error::Error;
use blob_client::status::{check_status, classify, classify_status, StatusClass};

#[test]
fn statuses_from_200_to_299_are_successes() {
    assert_eq!(classify_status(200), StatusClass::Success);
    assert_eq!(classify_status(204), StatusClass::Success);
    assert_eq!(classify_status(299), StatusClass::Success);
}

#[test]
fn statuses_from_400_to_499_are_refusals() {
    assert_eq!(classify_status(400), StatusClass::Rejected);
    assert_eq!(classify_status(404), StatusClass::Rejected);
    assert_eq!(classify_status(499), StatusClass::Rejected);
}

#[test]
fn every_other_status_is_unexpected() {
    for status in [0, 100, 199, 300, 301, 399, 500, 503, 599, 999, u16::MAX] {
        assert_eq!(classify_status(status), StatusClass::Unexpected);
    }
}

#[test]
fn check_status_stops_at_an_unexpected_status() {
    assert_eq!(check_status(200), Ok(()));
    assert_eq!(check_status(404), Ok(()));
    assert_eq!(check_status(302), Err(Error::UnexpectedHttpStatus { status: 302 }));
    assert_eq!(check_status(500), Err(Error::UnexpectedHttpStatus { status: 500 }));
}

#[test]
fn classify_hands_back_the_body_of_a_success() {
    assert_eq!(classify(200, vec![1, 2, 3]), Ok(vec![1, 2, 3]));
    assert_eq!(classify(206, vec![]), Ok(vec![]));
}

#[test]
fn classify_keeps_the_body_of_a_client_error() {
    assert_eq!(
        classify(404, b"not found".to_vec()),
        Err(Error::Rejected { status: 404, len: 9, body: b"not found".to_vec() })
    );
    assert_eq!(
        classify(401, vec![]),
        Err(Error::Rejected { status: 401, len: 0, body: vec![] })
    );
}

#[test]
fn classify_drops_the_body_of_an_unexpected_status() {
    assert_eq!(
        classify(500, b"oops".to_vec()),
        Err(Error::UnexpectedHttpStatus { status: 500 })
    );
    assert_eq!(classify(301, vec![]), Err(Error::UnexpectedHttpStatus { status: 301 }));
}
