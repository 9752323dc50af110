//! Tells a missing resource apart from any other access failure.
//!
//! A common practice is to handle a resource only if it exists: a missing
//! file is then an ordinary, expected outcome, not an error. This crate
//! provides the [`IoResultOptional`] trait, whose one method `optional`
//! turns an access outcome `Result<T, AccessError>` into
//! `Result<Option<T>, AccessError>`: a success becomes `Ok(Some(value))`,
//! a failure whose kind is `NotFound` becomes `Ok(None)`, and every other
//! failure is passed through unchanged. The whole transformation is the
//! spec function [`classify_presence`], and `optional` is proved to
//! return exactly that.

use vstd::prelude::*;

verus! {

/// The classification tag of a failed access: it distinguishes a missing
/// target from every other failure mode.
#[derive(Clone, Copy, Debug, PartialEq, Eq, Structural)]
pub enum AccessErrorKind {
    /// The target of the access does not exist.
    NotFound,
    /// The access was refused.
    PermissionDenied,
    /// The access did not complete in time.
    TimedOut,
    /// Any other failure mode.
    Other,
}

/// The error descriptor of a failed access: a classification tag and a
/// diagnostic message.
#[derive(Clone, Debug, PartialEq, Eq)]
pub struct AccessError {
    /// The classification tag.
    pub kind: AccessErrorKind,
    /// The diagnostic detail.
    pub message: String,
}

impl AccessError {
    /// Builds an error descriptor from its tag and its message.
    pub fn new(kind: AccessErrorKind, message: String) -> (e: AccessError)
        ensures
            e == (AccessError { kind, message }),
    {
        AccessError { kind, message }
    }
}

/// The classification, as a total mathematical map: every access outcome
/// is sent to exactly one presence outcome.
///
/// A success wraps its payload in `Some`; a failure whose kind is
/// `NotFound` is absorbed into `Ok(None)`, whatever its message; every
/// other failure is returned as it came, its kind and message untouched.
pub open spec fn classify_presence<T>(outcome: Result<T, AccessError>) -> Result<
    Option<T>,
    AccessError,
> {
    match outcome {
        Ok(value) => Ok(Some(value)),
        Err(e) => if e.kind is NotFound {
            Ok(None)
        } else {
            Err(e)
        },
    }
}

/// A trait for access results that adds a method making it easy to tell
/// the difference between a missing resource and another failure.
pub trait IoResultOptional<T>: Sized {
    /// The presence outcome that `optional` must return for this value.
    spec fn classified(self) -> Result<Option<T>, AccessError>;

    /// Considers the given access optional: if the result is a failure
    /// whose kind is `NotFound`, converts it to `Ok(None)`; if it is any
    /// other failure, returns it as is; and if it is `Ok(value)`,
    /// converts it to `Ok(Some(value))`.
    fn optional(self) -> (r: Result<Option<T>, AccessError>)
        ensures
            r == self.classified(),
    ;
}

impl<T> IoResultOptional<T> for Result<T, AccessError> {
    open spec fn classified(self) -> Result<Option<T>, AccessError> {
        classify_presence(self)
    }

    fn optional(self) -> (r: Result<Option<T>, AccessError>) {
        match self {
            Ok(value) => Ok(Some(value)),
            Err(e) => match e.kind {
                AccessErrorKind::NotFound => Ok(None),
                _ => Err(e),
            },
        }
    }
}

/// Law: classifying a success yields a success holding the payload,
/// present and unchanged.
pub proof fn lemma_success_present<T>(x: T)
    ensures
        classify_presence::<T>(Ok(x)) == Ok::<Option<T>, AccessError>(Some(x)),
{
}

/// Law: classifying a failure whose kind is `NotFound` yields a success
/// holding an absence, regardless of the failure's message.
pub proof fn lemma_not_found_absent<T>(e: AccessError)
    requires
        e.kind is NotFound,
    ensures
        classify_presence::<T>(Err(e)) == Ok::<Option<T>, AccessError>(None),
{
}

/// Law: classifying a failure of any other kind yields that failure
/// itself, its kind and message preserved exactly.
pub proof fn lemma_other_error_passes_through<T>(e: AccessError)
    requires
        e.kind !is NotFound,
    ensures
        classify_presence::<T>(Err(e)) == Err::<Option<T>, AccessError>(e),
{
}

/// Law: classification is deterministic, so repeating it on structurally
/// equal inputs yields structurally equal outputs.
pub proof fn lemma_classification_deterministic<T>(
    a: Result<T, AccessError>,
    b: Result<T, AccessError>,
)
    requires
        a == b,
    ensures
        classify_presence(a) == classify_presence(b),
{
}

} // verus!
