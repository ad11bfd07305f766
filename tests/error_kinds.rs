use sdp_error::{Error, IoError};
use std::io::ErrorKind;

fn bare_kinds() -> Vec<Error> {
    vec![
        Error::CodecNotFound,
        Error::MissingWhitespace,
        Error::MissingColon,
        Error::PayloadTypeNotFound,
        Error::SdpEmptyTimeDescription,
    ]
}

fn io(kind: ErrorKind, text: &str) -> Error {
    Error::from(std::io::Error::new(kind, text))
}

#[test]
fn bare_kind_equals_fresh_value_of_same_kind() {
    for (a, b) in bare_kinds().iter().zip(bare_kinds().iter()) {
        assert_eq!(a, b);
    }
}

#[test]
fn bare_kind_differs_from_every_other_kind() {
    let all = bare_kinds();
    for (i, a) in all.iter().enumerate() {
        for (j, b) in all.iter().enumerate() {
            if i != j {
                assert_ne!(a, b);
            }
        }
        assert_ne!(a, &Error::SdpInvalidSyntax("a".to_string()));
        assert_ne!(a, &io(ErrorKind::NotFound, "gone"));
    }
}

#[test]
fn text_payload_equality() {
    assert_eq!(
        Error::SdpInvalidSyntax("a".to_string()),
        Error::SdpInvalidSyntax("a".to_string())
    );
    assert_ne!(
        Error::SdpInvalidSyntax("a".to_string()),
        Error::SdpInvalidSyntax("b".to_string())
    );
    assert_ne!(
        Error::SdpInvalidSyntax("a".to_string()),
        Error::SdpInvalidValue("a".to_string())
    );
    assert_eq!(Error::ExtMapParse("x".to_string()), Error::ExtMapParse("x".to_string()));
    assert_ne!(Error::ExtMapParse("x".to_string()), Error::ExtMapParse("y".to_string()));
}

#[test]
fn io_equality_ignores_message() {
    assert_eq!(io(ErrorKind::NotFound, "first text"), io(ErrorKind::NotFound, "second text"));
    assert_eq!(
        IoError(std::io::Error::new(ErrorKind::NotFound, "a")),
        IoError(std::io::Error::new(ErrorKind::NotFound, "b"))
    );
}

#[test]
fn io_equality_tells_categories_apart() {
    assert_ne!(io(ErrorKind::NotFound, "x"), io(ErrorKind::PermissionDenied, "x"));
    assert_ne!(
        IoError(std::io::Error::new(ErrorKind::NotFound, "x")),
        IoError(std::io::Error::new(ErrorKind::ConnectionReset, "x"))
    );
}

#[test]
fn io_error_converts_into_io_kind() {
    let e = io(ErrorKind::NotFound, "missing");
    assert!(matches!(e, Error::Io(_)));
    let w = IoError::from(std::io::Error::new(ErrorKind::PermissionDenied, "no"));
    assert_eq!(w.0.kind(), ErrorKind::PermissionDenied);
}

#[test]
fn malformed_utf8_converts_into_utf8_kind() {
    let bad = String::from_utf8(vec![0x66, 0xff, 0x6f]).unwrap_err();
    let e = Error::from(bad);
    assert!(matches!(e, Error::Utf8(_)));
    let again = Error::from(String::from_utf8(vec![0x66, 0xff, 0x6f]).unwrap_err());
    assert_eq!(e, again);
}

#[test]
fn bad_integer_converts_into_parse_int_kind() {
    let e = Error::from("abc".parse::<u32>().unwrap_err());
    assert!(matches!(e, Error::ParseInt(_)));
    assert_ne!(e, Error::from("".parse::<u32>().unwrap_err()));
}

#[test]
fn bad_url_converts_into_parse_url_kind() {
    let e = Error::from(url::Url::parse("not a url").unwrap_err());
    assert_eq!(e, Error::ParseUrl(url::ParseError::RelativeUrlWithoutBase));
    assert_ne!(e, Error::ParseUrl(url::ParseError::EmptyHost));
}

fn port_of(text: &str) -> sdp_error::Result<u16> {
    Ok(text.parse::<u16>()?)
}

#[test]
fn question_mark_propagates_conversion() {
    assert_eq!(port_of("5004"), Ok(5004));
    assert!(matches!(port_of("x5004"), Err(Error::ParseInt(_))));
}

#[test]
fn messages_of_bare_kinds() {
    assert_eq!(Error::CodecNotFound.message(), "codec not found");
    assert_eq!(Error::MissingWhitespace.message(), "missing whitespace");
    assert_eq!(Error::MissingColon.message(), "missing colon");
    assert_eq!(Error::PayloadTypeNotFound.message(), "payload type not found");
    assert_eq!(Error::SdpEmptyTimeDescription.message(), "sdp: empty time_descriptions");
}

#[test]
fn messages_of_text_kinds() {
    let m = Error::ExtMapParse("x".to_string()).message();
    assert!(m.contains("SyntaxError") && m.contains("x"));
    assert_eq!(m, "SyntaxError: x");
    assert_eq!(Error::SdpInvalidSyntax("v=1".to_string()).message(), "SdpInvalidSyntax: v=1");
    assert_eq!(Error::SdpInvalidValue("".to_string()).message(), "SdpInvalidValue: ");
}

#[test]
fn messages_of_wrapped_kinds() {
    assert_eq!(io(ErrorKind::NotFound, "no such file").message(), "io error: no such file");
    assert_eq!(
        IoError(std::io::Error::new(ErrorKind::Other, "broken")).message(),
        "io error: broken"
    );
    let utf8 = Error::from(String::from_utf8(vec![0xff]).unwrap_err());
    assert_eq!(utf8.message(), "utf-8 error: invalid utf-8 sequence of 1 bytes from index 0");
    let int = Error::from("abc".parse::<u32>().unwrap_err());
    assert_eq!(int.message(), "parse int: invalid digit found in string");
    let url = Error::from(url::ParseError::RelativeUrlWithoutBase);
    assert_eq!(url.message(), "parse url: relative URL without a base");
}

fn describe(e: &Error) -> &'static str {
    match e {
        Error::MissingColon | Error::MissingWhitespace => "separator",
        Error::Io(_) => "io",
        _ => "other",
    }
}

#[test]
fn matching_with_wildcard_arm() {
    assert_eq!(describe(&Error::MissingColon), "separator");
    assert_eq!(describe(&io(ErrorKind::NotFound, "x")), "io");
    assert_eq!(describe(&Error::CodecNotFound), "other");
    assert_eq!(describe(&Error::ExtMapParse("x".to_string())), "other");
}
