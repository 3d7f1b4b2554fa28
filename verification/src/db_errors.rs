//! Classification of link-store failures.
//!
//! The store reports failures in its own vocabulary; the service folds
//! them into its error taxonomy.  A uniqueness violation means another
//! request linked the shop first and is translated upward into an
//! idempotent re-fetch; a foreign-key violation is a referential
//! integrity problem the caller must fix; everything else stays an
//! opaque internal failure.  One deliberate downgrade exists: a syntax
//! error coming from the store's full-text-search parser is treated as
//! "no result", to tolerate user-supplied search terms.

use crate::model::PaymentError;
use vstd::prelude::*;
use vstd::string::*;

verus! {

/// What kind of failure the link store reported.
#[derive(Debug, Clone, Copy, PartialEq, Eq, Structural)]
pub enum DbErrorClass {
    /// The store refused a duplicate key.
    UniqueViolation,
    /// The store could not parse a statement.
    SyntaxError,
    /// The store refused a reference to a missing row.
    ForeignKeyViolation,
    /// Any other failure of the store itself.
    OtherDatabase,
    /// The connection pool failed.
    Pool,
    /// The pool could not be created.
    CreatePool,
    /// The statement could not be built.
    QueryBuild,
}

/// The service error each failure class surfaces as.
pub open spec fn spec_db_error_status(class: DbErrorClass) -> PaymentError {
    match class {
        DbErrorClass::UniqueViolation => PaymentError::AlreadyExists,
        DbErrorClass::ForeignKeyViolation => PaymentError::FailedPrecondition,
        DbErrorClass::SyntaxError => PaymentError::Internal,
        DbErrorClass::OtherDatabase => PaymentError::Internal,
        DbErrorClass::Pool => PaymentError::Internal,
        DbErrorClass::CreatePool => PaymentError::Internal,
        DbErrorClass::QueryBuild => PaymentError::Internal,
    }
}

/// Folds a store failure into the service's error taxonomy.
pub fn db_error_status(class: DbErrorClass) -> (r: PaymentError)
    ensures
        r == spec_db_error_status(class),
{
    match class {
        DbErrorClass::UniqueViolation => PaymentError::AlreadyExists,
        DbErrorClass::ForeignKeyViolation => PaymentError::FailedPrecondition,
        DbErrorClass::SyntaxError => PaymentError::Internal,
        DbErrorClass::OtherDatabase => PaymentError::Internal,
        DbErrorClass::Pool => PaymentError::Internal,
        DbErrorClass::CreatePool => PaymentError::Internal,
        DbErrorClass::QueryBuild => PaymentError::Internal,
    }
}

/// Whether a failure is the full-text-search syntax error that is
/// swallowed rather than surfaced: a syntax error whose reported
/// routine is the store's text-query parser.
pub fn should_ignore_ts_query_error(class: DbErrorClass, routine: Option<&str>) -> (r: bool)
    ensures
        r == (class is SyntaxError && (routine matches Some(s) && s@ == "toTSQuery"@)),
{
    if class == DbErrorClass::SyntaxError {
        match routine {
            Some(s) => String::from_str(s) == String::from_str("toTSQuery"),
            None => false,
        }
    } else {
        false
    }
}

} // verus!
