//! What this library assumes of types and functions it does not define.

use vstd::prelude::*;

verus! {

#[verifier::external_type_specification]
#[verifier::external_body]
pub struct ExIoError(std::io::Error);

#[verifier::external_type_specification]
#[verifier::external_body]
pub struct ExIoErrorKind(std::io::ErrorKind);

/// The coarse category that `std::io::Error::kind` reports for an I/O error.
pub uninterp spec fn io_error_kind(e: std::io::Error) -> std::io::ErrorKind;

/// Relies on `std::io::Error::kind`: it reads the category stored in (or
/// derived from) the error value, so equal errors report equal categories.
pub assume_specification[ std::io::Error::kind ](e: &std::io::Error) -> (r: std::io::ErrorKind)
    ensures
        r == io_error_kind(*e),
;

/// Relies on the derived `PartialEq` of `std::io::ErrorKind`, a field-less
/// enum: two categories compare equal exactly when they are the same one.
pub assume_specification[ <std::io::ErrorKind as PartialEq>::eq ](
    a: &std::io::ErrorKind,
    b: &std::io::ErrorKind,
) -> (r: bool)
    ensures
        r == (*a == *b),
;

#[verifier::external_type_specification]
#[verifier::external_body]
pub struct ExFromUtf8Error(std::string::FromUtf8Error);

#[verifier::external_type_specification]
#[verifier::external_body]
pub struct ExParseIntError(std::num::ParseIntError);

#[verifier::external_type_specification]
#[verifier::external_body]
pub struct ExUrlParseError(url::ParseError);

/// Relies on the derived `PartialEq` of `std::string::FromUtf8Error`: two
/// decode failures compare equal exactly when they hold the same bytes and
/// the same failure position.
pub assume_specification[ <std::string::FromUtf8Error as PartialEq>::eq ](
    a: &std::string::FromUtf8Error,
    b: &std::string::FromUtf8Error,
) -> (r: bool)
    ensures
        r == (*a == *b),
;

/// Relies on the derived `PartialEq` of `std::num::ParseIntError`, whose only
/// field is a field-less enum naming why the parse failed.
pub assume_specification[ <std::num::ParseIntError as PartialEq>::eq ](
    a: &std::num::ParseIntError,
    b: &std::num::ParseIntError,
) -> (r: bool)
    ensures
        r == (*a == *b),
;

/// Relies on the derived `PartialEq` of `url::ParseError`, a field-less enum:
/// two failures compare equal exactly when they are the same variant.
pub assume_specification[ <url::ParseError as PartialEq>::eq ](
    a: &url::ParseError,
    b: &url::ParseError,
) -> (r: bool)
    ensures
        r == (*a == *b),
;

} // verus!
