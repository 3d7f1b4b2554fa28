//! Subscription control.
//!
//! Cancelling and resuming a recurring payment plan both resolve the
//! shop's linked sub-account first and fail not-found without one.  A
//! cancel asks for cancellation at the end of the period, never an
//! immediate one; a resume withdraws a pending cancellation.  The
//! processor calls themselves run outside the library; a repeated
//! cancel or resume surfaces the processor's failure untranslated as an
//! internal error, which the caller may treat as idempotent.

use crate::model::{PaymentError, StripeAccount};
use vstd::prelude::*;

verus! {

/// A cancel request scoped to the right sub-account: cancellation at
/// period end on the named subscription.
#[derive(Debug, Clone)]
pub struct SubscriptionCancel {
    pub stripe_account_id: String,
    pub stripe_subscription_id: String,
    pub cancel_at_period_end: bool,
}

/// A resume request scoped to the right sub-account.
#[derive(Debug, Clone)]
pub struct SubscriptionResume {
    pub stripe_account_id: String,
    pub stripe_subscription_id: String,
}

/// Plans a cancellation: without a link for the shop there is nothing
/// to act on; with one, the update asks for cancellation at period end.
pub fn plan_cancel_subscription(
    existing: Option<StripeAccount>,
    stripe_subscription_id: String,
) -> (r: Result<SubscriptionCancel, PaymentError>)
    ensures
        existing is None ==> (r matches Err(e) && e is NotFound),
        existing matches Some(link) ==> r matches Ok(u) && u.stripe_account_id
            == link.stripe_account_id && u.stripe_subscription_id == stripe_subscription_id
            && u.cancel_at_period_end,
{
    match existing {
        Some(link) => Ok(
            SubscriptionCancel {
                stripe_account_id: link.stripe_account_id,
                stripe_subscription_id,
                cancel_at_period_end: true,
            },
        ),
        None => Err(PaymentError::NotFound),
    }
}

/// Plans a resume: without a link for the shop there is nothing to act
/// on.
pub fn plan_resume_subscription(
    existing: Option<StripeAccount>,
    stripe_subscription_id: String,
) -> (r: Result<SubscriptionResume, PaymentError>)
    ensures
        existing is None ==> (r matches Err(e) && e is NotFound),
        existing matches Some(link) ==> r matches Ok(u) && u.stripe_account_id
            == link.stripe_account_id && u.stripe_subscription_id == stripe_subscription_id,
{
    match existing {
        Some(link) => Ok(
            SubscriptionResume {
                stripe_account_id: link.stripe_account_id,
                stripe_subscription_id,
            },
        ),
        None => Err(PaymentError::NotFound),
    }
}

} // verus!
