//! The error type shared by every fallible operation of the parser.

use vstd::prelude::*;
use vstd::std_specs::cmp::PartialEqSpec;
use vstd::std_specs::convert::FromSpec;
use vstd::string::{to_string_from_display_ensures, StringExecFns};
use crate::outside::io_error_kind;

verus! {

/// An I/O failure, compared by its category alone.
///
/// `std::io::Error` has no value equality; this wrapper owns the failure and
/// treats two of them as equal when they fall in the same category, whatever
/// their message or OS error code.
#[derive(Debug)]
pub struct IoError(pub std::io::Error);

impl IoError {
    /// The category under which two wrapped failures compare equal.
    pub open spec fn category(&self) -> std::io::ErrorKind {
        io_error_kind(self.0)
    }

    /// Whether `m` is a message of this failure: "io error: " and then a
    /// text that the wrapped error renders as.
    pub open spec fn message_is(&self, m: Seq<char>) -> bool {
        framed(m, "io error: "@, &self.0)
    }

    /// The diagnostic message of this failure.
    pub fn message(&self) -> (r: String)
        ensures
            self.message_is(r@),
    {
        let t = self.0.to_string();
        join("io error: ", t.as_str())
    }
}

/// Whether `m` is `prefix` followed by a text that `v` renders as.
pub open spec fn framed<T: std::fmt::Display>(m: Seq<char>, prefix: Seq<char>, v: &T) -> bool {
    exists|t: String| #[trigger] to_string_from_display_ensures::<T>(v, t) && m == prefix + t@
}

/// `prefix` followed by `t`.
fn join(prefix: &str, t: &str) -> (r: String)
    ensures
        r@ == prefix@ + t@,
{
    let mut r = String::from_str(prefix);
    r.append(t);
    r
}

impl PartialEq for IoError {
    fn eq(&self, other: &IoError) -> (r: bool)
        ensures
            r == (self.category() == other.category()),
    {
        self.0.kind() == other.0.kind()
    }
}

impl vstd::std_specs::cmp::PartialEqSpecImpl for IoError {
    open spec fn obeys_eq_spec() -> bool {
        true
    }

    open spec fn eq_spec(&self, other: &IoError) -> bool {
        self.category() == other.category()
    }
}

/// Result of a fallible operation of the parser.
pub type Result<T> = std::result::Result<T, Error>;

/// Every failure that the parser and its codec, URL and integer layers
/// report.
///
/// More kinds may be added later: code outside this crate must match with a
/// wildcard arm.
#[derive(Debug)]
#[non_exhaustive]
pub enum Error {
    /// No handler is registered for the requested codec.
    CodecNotFound,
    /// The field separator (a space) is absent where one is expected.
    MissingWhitespace,
    /// The key/value separator (`:`) is absent where one is expected.
    MissingColon,
    /// A referenced payload type does not resolve.
    PayloadTypeNotFound,
    /// A read, write or stream failure.
    Io(IoError),
    /// A byte sequence is not valid UTF-8 text.
    Utf8(std::string::FromUtf8Error),
    /// A line or section does not follow the protocol grammar.
    SdpInvalidSyntax(String),
    /// A well-formed field holds a value out of its range.
    SdpInvalidValue(String),
    /// A required time description parsed as empty.
    SdpEmptyTimeDescription,
    /// A numeric field is not an integer.
    ParseInt(std::num::ParseIntError),
    /// A URI or URL field does not parse.
    ParseUrl(url::ParseError),
    /// An extension-map attribute does not parse.
    ExtMapParse(String),
}

impl Error {
    /// Whether this kind carries nothing but its tag.
    pub open spec fn is_bare(self) -> bool {
        match self {
            Error::CodecNotFound
            | Error::MissingWhitespace
            | Error::MissingColon
            | Error::PayloadTypeNotFound
            | Error::SdpEmptyTimeDescription => true,
            _ => false,
        }
    }

    /// Value equality: the same kind, with equal payloads; two I/O failures
    /// are equal when they fall in the same category.
    pub open spec fn same_as(self, other: Error) -> bool {
        match (self, other) {
            (Error::CodecNotFound, Error::CodecNotFound) => true,
            (Error::MissingWhitespace, Error::MissingWhitespace) => true,
            (Error::MissingColon, Error::MissingColon) => true,
            (Error::PayloadTypeNotFound, Error::PayloadTypeNotFound) => true,
            (Error::Io(a), Error::Io(b)) => a.category() == b.category(),
            (Error::Utf8(a), Error::Utf8(b)) => a == b,
            (Error::SdpInvalidSyntax(a), Error::SdpInvalidSyntax(b)) => a@ == b@,
            (Error::SdpInvalidValue(a), Error::SdpInvalidValue(b)) => a@ == b@,
            (Error::SdpEmptyTimeDescription, Error::SdpEmptyTimeDescription) => true,
            (Error::ParseInt(a), Error::ParseInt(b)) => a == b,
            (Error::ParseUrl(a), Error::ParseUrl(b)) => a == b,
            (Error::ExtMapParse(a), Error::ExtMapParse(b)) => a@ == b@,
            _ => false,
        }
    }
}

impl Error {
    /// Whether `m` is the diagnostic message of this error: a fixed text for
    /// each kind, followed by the payload's own text where there is one.
    pub open spec fn message_is(self, m: Seq<char>) -> bool {
        match self {
            Error::CodecNotFound => m == "codec not found"@,
            Error::MissingWhitespace => m == "missing whitespace"@,
            Error::MissingColon => m == "missing colon"@,
            Error::PayloadTypeNotFound => m == "payload type not found"@,
            Error::Io(e) => e.message_is(m),
            Error::Utf8(e) => framed(m, "utf-8 error: "@, &e),
            Error::SdpInvalidSyntax(s) => m == "SdpInvalidSyntax: "@ + s@,
            Error::SdpInvalidValue(s) => m == "SdpInvalidValue: "@ + s@,
            Error::SdpEmptyTimeDescription => m == "sdp: empty time_descriptions"@,
            Error::ParseInt(e) => framed(m, "parse int: "@, &e),
            Error::ParseUrl(e) => framed(m, "parse url: "@, &e),
            Error::ExtMapParse(s) => m == "SyntaxError: "@ + s@,
        }
    }

    /// The diagnostic message of this error. It is meant for people: match
    /// on the kind, not on the text.
    pub fn message(&self) -> (r: String)
        ensures
            self.message_is(r@),
    {
        match self {
            Error::CodecNotFound => String::from_str("codec not found"),
            Error::MissingWhitespace => String::from_str("missing whitespace"),
            Error::MissingColon => String::from_str("missing colon"),
            Error::PayloadTypeNotFound => String::from_str("payload type not found"),
            Error::Io(e) => e.message(),
            Error::Utf8(e) => {
                let t = e.to_string();
                join("utf-8 error: ", t.as_str())
            },
            Error::SdpInvalidSyntax(s) => join("SdpInvalidSyntax: ", s.as_str()),
            Error::SdpInvalidValue(s) => join("SdpInvalidValue: ", s.as_str()),
            Error::SdpEmptyTimeDescription => String::from_str("sdp: empty time_descriptions"),
            Error::ParseInt(e) => {
                let t = e.to_string();
                join("parse int: ", t.as_str())
            },
            Error::ParseUrl(e) => {
                let t = e.to_string();
                join("parse url: ", t.as_str())
            },
            Error::ExtMapParse(s) => join("SyntaxError: ", s.as_str()),
        }
    }
}

impl PartialEq for Error {
    fn eq(&self, other: &Error) -> (r: bool)
        ensures
            r == self.same_as(*other),
    {
        match (self, other) {
            (Error::CodecNotFound, Error::CodecNotFound) => true,
            (Error::MissingWhitespace, Error::MissingWhitespace) => true,
            (Error::MissingColon, Error::MissingColon) => true,
            (Error::PayloadTypeNotFound, Error::PayloadTypeNotFound) => true,
            (Error::Io(a), Error::Io(b)) => a.eq(b),
            (Error::Utf8(a), Error::Utf8(b)) => a.eq(b),
            (Error::SdpInvalidSyntax(a), Error::SdpInvalidSyntax(b)) => a.eq(b),
            (Error::SdpInvalidValue(a), Error::SdpInvalidValue(b)) => a.eq(b),
            (Error::SdpEmptyTimeDescription, Error::SdpEmptyTimeDescription) => true,
            (Error::ParseInt(a), Error::ParseInt(b)) => a.eq(b),
            (Error::ParseUrl(a), Error::ParseUrl(b)) => a.eq(b),
            (Error::ExtMapParse(a), Error::ExtMapParse(b)) => a.eq(b),
            _ => false,
        }
    }
}

impl vstd::std_specs::cmp::PartialEqSpecImpl for Error {
    open spec fn obeys_eq_spec() -> bool {
        true
    }

    open spec fn eq_spec(&self, other: &Error) -> bool {
        self.same_as(*other)
    }
}

impl From<std::io::Error> for IoError {
    fn from(e: std::io::Error) -> (r: IoError)
        ensures
            r == IoError(e),
    {
        IoError(e)
    }
}

impl vstd::std_specs::convert::FromSpecImpl<std::io::Error> for IoError {
    open spec fn obeys_from_spec() -> bool {
        true
    }

    open spec fn from_spec(e: std::io::Error) -> IoError {
        IoError(e)
    }
}

impl From<std::io::Error> for Error {
    fn from(e: std::io::Error) -> (r: Error)
        ensures
            r == Error::Io(IoError(e)),
    {
        Error::Io(IoError(e))
    }
}

impl vstd::std_specs::convert::FromSpecImpl<std::io::Error> for Error {
    open spec fn obeys_from_spec() -> bool {
        true
    }

    open spec fn from_spec(e: std::io::Error) -> Error {
        Error::Io(IoError(e))
    }
}

impl From<std::string::FromUtf8Error> for Error {
    fn from(e: std::string::FromUtf8Error) -> (r: Error)
        ensures
            r == Error::Utf8(e),
    {
        Error::Utf8(e)
    }
}

impl vstd::std_specs::convert::FromSpecImpl<std::string::FromUtf8Error> for Error {
    open spec fn obeys_from_spec() -> bool {
        true
    }

    open spec fn from_spec(e: std::string::FromUtf8Error) -> Error {
        Error::Utf8(e)
    }
}

impl From<std::num::ParseIntError> for Error {
    fn from(e: std::num::ParseIntError) -> (r: Error)
        ensures
            r == Error::ParseInt(e),
    {
        Error::ParseInt(e)
    }
}

impl vstd::std_specs::convert::FromSpecImpl<std::num::ParseIntError> for Error {
    open spec fn obeys_from_spec() -> bool {
        true
    }

    open spec fn from_spec(e: std::num::ParseIntError) -> Error {
        Error::ParseInt(e)
    }
}

impl From<url::ParseError> for Error {
    fn from(e: url::ParseError) -> (r: Error)
        ensures
            r == Error::ParseUrl(e),
    {
        Error::ParseUrl(e)
    }
}

impl vstd::std_specs::convert::FromSpecImpl<url::ParseError> for Error {
    open spec fn obeys_from_spec() -> bool {
        true
    }

    open spec fn from_spec(e: url::ParseError) -> Error {
        Error::ParseUrl(e)
    }
}

/// A kind without payload equals a fresh value of the same kind, and no
/// value of any other kind.
pub proof fn lemma_bare_kind_equality(a: Error, b: Error)
    requires
        a.is_bare(),
    ensures
        a.same_as(b) <==> a == b,
        a.same_as(a),
{
}

/// Kinds that carry a diagnostic text are equal exactly when the texts are.
pub proof fn lemma_text_payload_equality(x: String, y: String)
    ensures
        Error::SdpInvalidSyntax(x).same_as(Error::SdpInvalidSyntax(y)) <==> x@ == y@,
        Error::SdpInvalidValue(x).same_as(Error::SdpInvalidValue(y)) <==> x@ == y@,
        Error::ExtMapParse(x).same_as(Error::ExtMapParse(y)) <==> x@ == y@,
        !Error::SdpInvalidSyntax(x).same_as(Error::SdpInvalidValue(y)),
        !Error::SdpInvalidSyntax(x).same_as(Error::ExtMapParse(y)),
        !Error::SdpInvalidValue(x).same_as(Error::ExtMapParse(y)),
{
}

/// Two I/O failures are equal exactly when they fall in the same category;
/// their messages and OS error codes play no part.
pub proof fn lemma_io_equality_by_category(a: std::io::Error, b: std::io::Error)
    ensures
        Error::Io(IoError(a)).same_as(Error::Io(IoError(b))) <==> io_error_kind(a)
            == io_error_kind(b),
        IoError(a).eq_spec(&IoError(b)) <==> io_error_kind(a) == io_error_kind(b),
{
}

/// Each lower-level failure converts into its own kind, and into no other:
/// a decode failure into `Utf8`, an integer parse failure into `ParseInt`, a
/// URL parse failure into `ParseUrl`, and an I/O failure, wrapped, into `Io`.
pub proof fn lemma_conversions(
    u: std::string::FromUtf8Error,
    p: std::num::ParseIntError,
    q: url::ParseError,
    e: std::io::Error,
)
    ensures
        <Error as FromSpec<std::string::FromUtf8Error>>::from_spec(u) == Error::Utf8(u),
        <Error as FromSpec<std::num::ParseIntError>>::from_spec(p) == Error::ParseInt(p),
        <Error as FromSpec<url::ParseError>>::from_spec(q) == Error::ParseUrl(q),
        <Error as FromSpec<std::io::Error>>::from_spec(e) == Error::Io(IoError(e)),
        <IoError as FromSpec<std::io::Error>>::from_spec(e) == IoError(e),
{
}

} // verus!
