//! Fee calculation and checkout-session assembly for a multi-tenant
//! commerce platform that routes payments through an external processor.
//!
//! Each shop owner links a processor sub-account; buyers check out against
//! offers owned by that sub-account, with the platform taking a
//! percentage-or-minimum fee.  The library holds the decision logic:
//! computing the platform fee for one-time and recurring purchases,
//! assembling a complete checkout-session request from an offer, its price,
//! the owning shop's fee configuration and an optional shipping rate, and
//! the idempotent account-linking and subscription-control decisions.
//! Transport, persistence and the processor calls themselves live outside
//! the library and exchange plain values with it.

pub mod account;
pub mod auth;
pub mod checkout;
pub mod countries;
pub mod db_errors;
pub mod fees;
pub mod ids;
pub mod model;
pub mod subscription;
