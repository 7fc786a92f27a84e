//! Error types that can be emitted from this library.

use vstd::prelude::*;
use vstd::std_specs::convert::FromSpec;
use vstd::string::StringExecFns;

verus! {

/// Generic result type with ZipError as its error variant.
pub type ZipResult<T> = Result<T, ZipError>;

/// An underlying byte-stream (read/write/seek) failure, as this library
/// models it: the one thing the taxonomy reads of such a failure is its
/// rendered one-line description, which is captured here as a plain string.
/// Code at the I/O boundary builds an `IoFailure` from the concrete failure
/// it caught and converts back when handing an error to an I/O interface.
#[derive(Debug)]
pub struct IoFailure {
    message: String,
}

impl IoFailure {
    /// The rendered description this failure carries.
    pub closed spec fn description(&self) -> Seq<char> {
        self.message@
    }

    /// Captures the rendered description of an underlying failure.
    pub fn new(message: String) -> (failure: IoFailure)
        ensures
            failure.description() == message@,
    {
        IoFailure { message }
    }

    /// Renders the failure: exactly the description it was built from.
    pub fn message(&self) -> (message: String)
        ensures
            message@ == self.description(),
    {
        self.message.clone()
    }
}

/// Error type for Zip. Exactly one variant is active per value; the
/// identifying context of a failed lookup (the name or index queried)
/// belongs to the caller, so `FileNotFound` carries no payload.
#[derive(Debug)]
pub enum ZipError {
    /// An error caused by I/O, retaining the underlying failure.
    Io(IoFailure),
    /// This file is probably not a zip archive.
    InvalidArchive(&'static str),
    /// This archive is not supported.
    UnsupportedArchive(&'static str),
    /// The requested file could not be found in the archive.
    FileNotFound,
}

/// Category label prefixed to every structural-integrity diagnostic.
pub open spec fn invalid_archive_prefix() -> Seq<char> {
    "invalid Zip archive: "@
}

/// Category label prefixed to every capability-gap diagnostic.
pub open spec fn unsupported_archive_prefix() -> Seq<char> {
    "unsupported Zip archive: "@
}

/// The fixed description of a failed entry lookup.
pub open spec fn file_not_found_description() -> Seq<char> {
    "specified file not found in archive"@
}

impl ZipError {
    /// The one-line description each variant renders: an `Io` error renders
    /// as the underlying failure does; the two diagnostic-carrying variants
    /// prefix their category label to the diagnostic; `FileNotFound` renders
    /// a fixed sentence.
    pub open spec fn description(&self) -> Seq<char> {
        match self {
            ZipError::Io(failure) => failure.description(),
            ZipError::InvalidArchive(diag) => invalid_archive_prefix() + diag@,
            ZipError::UnsupportedArchive(diag) => unsupported_archive_prefix() + diag@,
            ZipError::FileNotFound => file_not_found_description(),
        }
    }

    /// The underlying cause this error exposes: the wrapped failure for the
    /// `Io` variant, and nothing for every other variant, which is terminal.
    pub open spec fn cause(&self) -> Option<IoFailure> {
        match self {
            ZipError::Io(failure) => Some(*failure),
            _ => None,
        }
    }

    /// Renders the one-line, human-readable description of this error.
    pub fn message(&self) -> (message: String)
        ensures
            message@ == self.description(),
    {
        match self {
            ZipError::Io(failure) => failure.message(),
            ZipError::InvalidArchive(diag) => "invalid Zip archive: ".to_owned().concat(diag),
            ZipError::UnsupportedArchive(diag) => "unsupported Zip archive: ".to_owned().concat(
                diag,
            ),
            ZipError::FileNotFound => "specified file not found in archive".to_owned(),
        }
    }

    /// The text used as an error when a password is required and not
    /// supplied. It is a stable, documented value: a caller that matches an
    /// `UnsupportedArchive` payload against this exact constant can tell
    /// "needs credentials" apart from every other unsupported feature.
    pub const PASSWORD_REQUIRED: &'static str = "Password required to decrypt file";

    /// The underlying cause, for tooling that walks failure chains: only the
    /// `Io` variant has one.
    pub fn source(&self) -> (cause: Option<&IoFailure>)
        ensures
            cause is Some <==> self is Io,
            cause matches Some(failure) ==> self.cause() == Some(*failure),
    {
        match self {
            ZipError::Io(failure) => Some(failure),
            _ => None,
        }
    }

    /// Downward conversion for interop boundaries that only understand a
    /// generic I/O failure: the rendered description is preserved exactly,
    /// while the variant identity is deliberately lost.
    pub fn into_io_failure(self) -> (failure: IoFailure)
        ensures
            failure.description() == self.description(),
    {
        IoFailure::new(self.message())
    }
}

impl From<IoFailure> for ZipError {
    /// Wraps an underlying I/O failure, losing nothing: the failure itself
    /// becomes the payload of the `Io` variant.
    fn from(failure: IoFailure) -> (error: ZipError) {
        ZipError::Io(failure)
    }
}

impl vstd::std_specs::convert::FromSpecImpl<IoFailure> for ZipError {
    open spec fn obeys_from_spec() -> bool {
        true
    }

    open spec fn from_spec(failure: IoFailure) -> ZipError {
        ZipError::Io(failure)
    }
}

/// Wrapping an underlying I/O failure is identity-preserving: the
/// conversion yields the `Io` variant carrying the failure itself, the
/// wrapped error renders exactly as the failure does, and the failure is
/// what the wrapped error exposes as its cause.
pub proof fn lemma_io_wrap_preserves_failure(failure: IoFailure)
    ensures
        ZipError::from_spec(failure) == ZipError::Io(failure),
        ZipError::Io(failure).description() == failure.description(),
        ZipError::Io(failure).cause() == Some(failure),
{
}

/// Only the `Io` variant exposes an underlying cause; every other variant
/// is a terminal failure.
pub proof fn lemma_only_io_has_cause(error: ZipError)
    ensures
        error.cause() is Some <==> error is Io,
{
}

/// Prefixing the category label keeps diagnostics apart: two
/// unsupported-archive errors render the same description exactly when
/// their diagnostic strings are equal. A caller can therefore tell the
/// password-required diagnostic from any other payload by comparing the
/// rendered text, or the payload text, directly.
pub proof fn lemma_unsupported_diagnostic_distinguishable(diag: Seq<char>, other: Seq<char>)
    ensures
        unsupported_archive_prefix() + diag == unsupported_archive_prefix() + other <==> diag
            == other,
{
    let prefix = unsupported_archive_prefix();
    if prefix + diag == prefix + other {
        assert(diag =~= (prefix + diag).subrange(prefix.len() as int, (prefix + diag).len() as int));
        assert(other =~= (prefix + other).subrange(
            prefix.len() as int,
            (prefix + other).len() as int,
        ));
    }
}

/// An `UnsupportedArchive` error renders the same description as one
/// carrying the password-required constant exactly when its diagnostic is
/// that constant: callers can branch on "needs credentials" reliably.
pub proof fn lemma_password_required_matchable(diag: &'static str)
    ensures
        ZipError::UnsupportedArchive(diag).description() == ZipError::UnsupportedArchive(
            ZipError::PASSWORD_REQUIRED,
        ).description() <==> diag@ == ZipError::PASSWORD_REQUIRED@,
{
    lemma_unsupported_diagnostic_distinguishable(diag@, ZipError::PASSWORD_REQUIRED@);
}

/// The given password is wrong.
#[derive(Debug)]
pub struct InvalidPassword;

impl InvalidPassword {
    /// The fixed description of a wrong password.
    pub open spec fn description(&self) -> Seq<char> {
        "invalid password for file in archive"@
    }

    /// Renders the one-line, human-readable description of this error.
    pub fn message(&self) -> (message: String)
        ensures
            message@ == self.description(),
    {
        "invalid password for file in archive".to_owned()
    }
}

/// Error type for time parsing. The archive's legacy timestamp encoding
/// represents the years 1980 through 2107 inclusive; a date outside that
/// range cannot be encoded or decoded and must fail rather than silently
/// truncate or wrap.
#[derive(Debug)]
pub enum ZipDateTimeError {
    /// The date was out of the representable range.
    DateTimeOutOfBounds,
}

impl ZipDateTimeError {
    /// The fixed description of an unrepresentable date. This error is
    /// always a leaf failure: it exposes no further cause.
    pub open spec fn description(&self) -> Seq<char> {
        "datetime out of bounds"@
    }

    /// Renders the one-line, human-readable description of this error.
    pub fn message(&self) -> (message: String)
        ensures
            message@ == self.description(),
    {
        match self {
            ZipDateTimeError::DateTimeOutOfBounds => "datetime out of bounds".to_owned(),
        }
    }
}

} // verus!
