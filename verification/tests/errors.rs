use epitech_api::text::push_decimal;
use epitech_api::Error;

#[test]
fn message_of_every_error() {
    assert_eq!(
        Error::RetryLimit.message(),
        "no valid response received out of all the allowed retries"
    );
    assert_eq!(Error::InvalidStatusCode(404).message(), "invalid status code (404)");
    assert_eq!(Error::CookieNotFound.message(), "the session cookie couldn't be extracted");
    assert_eq!(Error::UnreachableRemote.message(), "the EPITECH intranet couldn't be reached");
    assert_eq!(Error::InternalError.message(), "internal error");
    assert_eq!(
        Error::ParserError(String::from("EOF while parsing")).message(),
        "parser error: 'EOF while parsing'"
    );
    assert_eq!(
        Error::RequestError(String::from("connection reset")).message(),
        "request error: 'connection reset'"
    );
}

#[test]
fn status_codes_are_written_in_decimal() {
    assert_eq!(Error::InvalidStatusCode(0).message(), "invalid status code (0)");
    assert_eq!(Error::InvalidStatusCode(7).message(), "invalid status code (7)");
    assert_eq!(Error::InvalidStatusCode(10).message(), "invalid status code (10)");
    assert_eq!(Error::InvalidStatusCode(65535).message(), "invalid status code (65535)");
}

#[test]
fn decimal_goes_behind_what_is_there() {
    for n in [0u64, 9, 10, 99, 100, 2018, 1234567890, u64::MAX] {
        let mut out = String::from("n=");
        push_decimal(&mut out, n);
        assert_eq!(out, format!("n={}", n));
    }
}

#[test]
fn errors_compare_by_kind_and_detail() {
    assert_eq!(Error::InvalidStatusCode(500), Error::InvalidStatusCode(500));
    assert_ne!(Error::InvalidStatusCode(500), Error::InvalidStatusCode(502));
    assert_ne!(Error::ParserError(String::from("a")), Error::RequestError(String::from("a")));
    assert!(Error::RetryLimit < Error::CookieNotFound);
}
