use message_queue::request::{parse_request, Request};

#[test]
fn empty_string_is_retrieve() {
    assert_eq!(parse_request(String::from("")), Request::Retrieve);
}

#[test]
fn bare_newline_is_retrieve() {
    assert_eq!(parse_request(String::from("\n")), Request::Retrieve);
}

#[test]
fn crlf_is_retrieve() {
    assert_eq!(parse_request(String::from("\r\n")), Request::Retrieve);
}

#[test]
fn text_line_is_publish_of_trimmed_text() {
    assert_eq!(
        parse_request(String::from("hello\n")),
        Request::Publish(String::from("hello"))
    );
}

#[test]
fn whitespace_only_line_is_publish_not_retrieve() {
    // The trim is terminator-only: spaces are payload, not emptiness.
    assert_eq!(
        parse_request(String::from("  \n")),
        Request::Publish(String::from("  "))
    );
}

#[test]
fn line_without_terminator_is_publish() {
    // The stream may close right after the text, before any terminator.
    assert_eq!(
        parse_request(String::from("hello")),
        Request::Publish(String::from("hello"))
    );
}

#[test]
fn interior_whitespace_and_terminators_are_kept() {
    assert_eq!(
        parse_request(String::from("a b\nc\r\n")),
        Request::Publish(String::from("a b\nc"))
    );
}

#[test]
fn repeated_trailing_terminators_are_all_stripped() {
    assert_eq!(
        parse_request(String::from("x\n\r\n")),
        Request::Publish(String::from("x"))
    );
    assert_eq!(parse_request(String::from("\n\n\r")), Request::Retrieve);
}

#[test]
fn non_ascii_payload_is_kept_whole() {
    assert_eq!(
        parse_request(String::from("héllo wörld\n")),
        Request::Publish(String::from("héllo wörld"))
    );
}
