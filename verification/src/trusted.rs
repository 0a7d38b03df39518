//! The items of `libsql` and `deadpool` that this crate relies on without
//! proof.

use deadpool::managed::{Metrics, RecycleError};
use vstd::prelude::*;

verus! {

/// `libsql::Database`: a handle from which connections are opened. Nothing
/// is known of what it holds.
#[verifier::external_type_specification]
#[verifier::external_body]
pub struct ExDatabase(libsql::Database);

/// `libsql::Error`: what the database client reports when an operation
/// fails. Nothing is known of what it holds.
#[verifier::external_type_specification]
#[verifier::external_body]
pub struct ExError(libsql::Error);

/// `deadpool::managed::Metrics`: the pool's statistics on one pooled object.
/// Nothing is known of what it holds.
#[verifier::external_type_specification]
#[verifier::external_body]
pub struct ExMetrics(Metrics);

/// `deadpool::managed::RecycleError`: what a manager hands the pool when a
/// connection is to be discarded. Its two variants are public and are read as
/// they are declared: `Message` with a text, `Backend` with the client's error.
#[verifier::external_type_specification]
#[verifier::reject_recursive_types(E)]
pub struct ExRecycleError<E>(RecycleError<E>);

/// The text that a `RecycleError` carries where it is a `Message`.
pub open spec fn message_of(reason: RecycleError<libsql::Error>) -> Option<Seq<char>> {
    match reason {
        RecycleError::Message(text) => Some(text@),
        RecycleError::Backend(_) => None,
    }
}

/// The text that `Display` gives for a `libsql::Error`. It is fixed by the
/// error alone: one wording for each variant, filled with the variant's
/// fields as they render themselves. What the wording is remains the
/// client's matter.
pub uninterp spec fn rendering(error: libsql::Error) -> Seq<char>;

/// `Display` for `libsql::Error`: the error rendered as text. The text is
/// the rendering of the error given, and of no other.
#[verifier::external_body]
pub(crate) fn diagnostic(error: &libsql::Error) -> (text: String)
    ensures
        text@ == rendering(*error),
{
    format!("{}", error)
}

/// `RecycleError::message`: builds the `Message` variant around the text
/// given, unchanged.
#[verifier::external_body]
pub(crate) fn discard_with(text: String) -> (reason: RecycleError<libsql::Error>)
    ensures
        message_of(reason) == Some(text@),
{
    RecycleError::message(text)
}

} // verus!
