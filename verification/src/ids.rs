//! Identifier validation.
//!
//! Shop identifiers travel as strings but must be well-formed UUIDs
//! before they reach the link store.  Parsing is delegated to the `uuid`
//! crate; the library speaks of the outcome through [`uuid_canonical`],
//! the canonical form a well-formed identifier normalizes to.

use crate::model::PaymentError;
use vstd::prelude::*;
use vstd::string::*;

verus! {

/// The canonical (hyphenated, lowercase) form of a UUID string, or
/// `None` where the string is not a well-formed UUID.  The form depends
/// on the characters of the string alone.
pub uninterp spec fn uuid_canonical(s: Seq<char>) -> Option<Seq<char>>;

/// Relies on `uuid::Uuid::parse_str`, which accepts a UUID in its
/// hyphenated, simple, URN or braced form, and on `Uuid::to_string`,
/// which renders the hyphenated lowercase form; both depend on the input
/// characters alone.
#[verifier::external_body]
fn parse_uuid_checked(s: &str) -> (r: Option<String>)
    ensures
        r is Some <==> uuid_canonical(s@) is Some,
        r matches Some(c) ==> uuid_canonical(s@) matches Some(v) && c@ == v,
{
    match uuid::Uuid::parse_str(s) {
        Ok(u) => Some(u.to_string()),
        Err(_) => None,
    }
}

/// Validates one identifier field: a well-formed UUID is returned in its
/// canonical form, anything else is an invalid argument naming the
/// field.
pub fn parse_uuid(uuid_string: &str, field: &str) -> (r: Result<String, PaymentError>)
    ensures
        r is Ok <==> uuid_canonical(uuid_string@) is Some,
        r matches Ok(c) ==> uuid_canonical(uuid_string@) matches Some(v) && c@ == v,
        r matches Err(e) ==> (e matches PaymentError::InvalidArgument { field: f } && f@
            == field@),
{
    match parse_uuid_checked(uuid_string) {
        Some(canonical) => Ok(canonical),
        None => Err(PaymentError::InvalidArgument { field: String::from_str(field) }),
    }
}

} // verus!
