use vstd::prelude::*;
use std::io::ErrorKind;
use vstd::std_specs::cmp::PartialEqSpec;
use std::time::Duration;

verus! {

#[verifier::external_type_specification]
#[verifier::external_body]
pub struct ExIoErrorKind(ErrorKind);

/// Errors produced by kakureyado operations.
#[derive(Debug)]
pub enum Error {
    /// The requested service was not found in the registry.
    ServiceNotFound(String),
    /// A service with this name already exists.
    AlreadyExists(String),
    /// Tor bootstrap process failed.
    BootstrapFailed(String),
    /// Vanity address generation exceeded the time limit.
    VanityTimeout(Duration),
    /// I/O error, kept by its kind.
    Io(ErrorKind),
    /// Configuration or persistence error.
    Config(String),
}

/// Convenience alias used throughout the crate.
pub type Result<T> = core::result::Result<T, Error>;

/// Compares two I/O error kinds with the derived `PartialEq` of
/// `std::io::ErrorKind`, a field-less enum, so equality is identity.
#[verifier::external_body]
fn io_kind_eq(a: &ErrorKind, b: &ErrorKind) -> (r: bool)
    ensures
        r == (*a == *b),
{
    *a == *b
}

/// Compares two durations with `<Duration as PartialEq>::eq`; durations are
/// normalized (whole seconds plus nanoseconds below one second), so equal
/// values are the same value.
#[verifier::external_body]
fn duration_eq(a: &Duration, b: &Duration) -> (r: bool)
    ensures
        r == (*a == *b),
{
    *a == *b
}

/// The `Debug` rendering of a duration (`format!("{:?}", d)`, for example
/// `10s`). Nothing is stated of the text.
#[verifier::external_body]
fn duration_debug_text(d: &Duration) -> (r: String) {
    format!("{:?}", d)
}

/// The `Display` rendering of an I/O error kind (`ErrorKind::to_string`, for
/// example `entity not found`). Nothing is stated of the text.
#[verifier::external_body]
fn io_kind_text(kind: &ErrorKind) -> (r: String) {
    kind.to_string()
}

fn string_eq(a: &String, b: &String) -> (r: bool)
    ensures
        r == (a@ == b@),
{
    a.eq(b)
}

impl Error {
    /// Whether the error is transient and the operation could be retried.
    pub fn is_retryable(&self) -> (r: bool)
        ensures
            r == (self is BootstrapFailed || self is VanityTimeout || self is Io),
    {
        match self {
            Error::BootstrapFailed(_) | Error::VanityTimeout(_) | Error::Io(_) => true,
            _ => false,
        }
    }

    /// The human-readable message of the error.
    pub fn to_string(&self) -> (r: String)
        ensures
            self matches Error::ServiceNotFound(n) ==> r@ == "service not found: "@ + n@,
            self matches Error::AlreadyExists(n) ==> r@ == "service already exists: "@ + n@,
            self matches Error::BootstrapFailed(n) ==> r@ == "tor bootstrap failed: "@ + n@,
            self matches Error::Config(n) ==> r@ == "config error: "@ + n@,
            self is VanityTimeout ==> "vanity generation timed out after "@.is_prefix_of(r@),
    {
        match self {
            Error::ServiceNotFound(n) => String::from_str("service not found: ").concat(n.as_str()),
            Error::AlreadyExists(n) => String::from_str("service already exists: ").concat(n.as_str()),
            Error::BootstrapFailed(n) => String::from_str("tor bootstrap failed: ").concat(n.as_str()),
            Error::Config(n) => String::from_str("config error: ").concat(n.as_str()),
            Error::VanityTimeout(d) => {
                let text = duration_debug_text(d);
                let r = String::from_str("vanity generation timed out after ").concat(text.as_str());
                r
            },
            Error::Io(kind) => io_kind_text(kind),
        }
    }
}

impl PartialEq for Error {
    fn eq(&self, other: &Self) -> (r: bool) {
        match self {
            Error::ServiceNotFound(a) => match other {
                Error::ServiceNotFound(b) => string_eq(a, b),
                _ => false,
            },
            Error::AlreadyExists(a) => match other {
                Error::AlreadyExists(b) => string_eq(a, b),
                _ => false,
            },
            Error::BootstrapFailed(a) => match other {
                Error::BootstrapFailed(b) => string_eq(a, b),
                _ => false,
            },
            Error::Config(a) => match other {
                Error::Config(b) => string_eq(a, b),
                _ => false,
            },
            Error::VanityTimeout(a) => match other {
                Error::VanityTimeout(b) => duration_eq(a, b),
                _ => false,
            },
            Error::Io(a) => match other {
                Error::Io(b) => io_kind_eq(a, b),
                _ => false,
            },
        }
    }
}

impl vstd::std_specs::cmp::PartialEqSpecImpl for Error {
    open spec fn obeys_eq_spec() -> bool {
        true
    }

    open spec fn eq_spec(&self, other: &Error) -> bool {
        match (self, other) {
            (Error::ServiceNotFound(a), Error::ServiceNotFound(b)) => a@ == b@,
            (Error::AlreadyExists(a), Error::AlreadyExists(b)) => a@ == b@,
            (Error::BootstrapFailed(a), Error::BootstrapFailed(b)) => a@ == b@,
            (Error::Config(a), Error::Config(b)) => a@ == b@,
            (Error::VanityTimeout(a), Error::VanityTimeout(b)) => a == b,
            (Error::Io(a), Error::Io(b)) => a == b,
            _ => false,
        }
    }
}

/// Error equality is an equivalence: every error equals itself, equality is
/// symmetric and transitive.
pub proof fn lemma_error_eq_equivalence(a: Error, b: Error, c: Error)
    ensures
        a.eq_spec(&a),
        a.eq_spec(&b) == b.eq_spec(&a),
        a.eq_spec(&b) && b.eq_spec(&c) ==> a.eq_spec(&c),
{
}

} // verus!
