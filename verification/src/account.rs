//! Account linking.
//!
//! A shop owner links a processor sub-account once; every later attempt
//! returns the existing link.  Ownership is enforced before anything
//! else, and a shop owned by someone else answers exactly like a shop
//! that does not exist, so that callers cannot probe which shops are
//! there.  The external lookups and calls around these decisions — the
//! commerce resolution, the link store, the processor — run outside the
//! library and feed their answers in as plain values.

use crate::db_errors::{spec_db_error_status, DbErrorClass};
use crate::model::{PaymentError, ShopResponse, StripeAccount};
use vstd::prelude::*;

verus! {

/// The account message returned to callers: the link and whether the
/// sub-account is enabled for charges.
#[derive(Debug, Clone)]
pub struct StripeAccountResponse {
    pub shop_id: String,
    pub stripe_account_id: String,
    pub enabled: bool,
}

/// The live enablement flags of a sub-account, as the processor
/// reports them.
#[derive(Debug, Clone, Copy, PartialEq, Eq, Structural)]
pub struct StripeAccountDetails {
    pub charges_enabled: bool,
    pub details_submitted: bool,
}

/// A sub-account is enabled when the processor affirms both flags;
/// an absent flag counts as false.
pub open spec fn spec_account_enabled(
    charges_enabled: Option<bool>,
    details_submitted: Option<bool>,
) -> bool {
    charges_enabled == Some(true) && details_submitted == Some(true)
}

/// Folds the processor's optional enablement flags into one answer.
pub fn account_enabled(charges_enabled: Option<bool>, details_submitted: Option<bool>) -> (r:
    bool)
    ensures
        r == spec_account_enabled(charges_enabled, details_submitted),
{
    let charges = match charges_enabled {
        Some(b) => b,
        None => false,
    };
    let details = match details_submitted {
        Some(b) => b,
        None => false,
    };
    charges && details
}

/// Builds the account message for a link and its enablement answer.
pub fn to_response(stripe_account: &StripeAccount, enabled: bool) -> (r: StripeAccountResponse)
    ensures
        r.shop_id == stripe_account.shop_id,
        r.stripe_account_id == stripe_account.stripe_account_id,
        r.enabled == enabled,
{
    StripeAccountResponse {
        shop_id: stripe_account.shop_id.clone(),
        stripe_account_id: stripe_account.stripe_account_id.clone(),
        enabled,
    }
}

/// Whether the shop resolves for its claimed owner.  A missing shop and
/// a shop owned by someone else give the same answer.
pub open spec fn spec_check_shop_and_owner(shop: Option<ShopResponse>, user_id: Seq<char>) -> Result<
    (),
    PaymentError,
> {
    match shop {
        Option::Some(s) => if s.user_id@ == user_id {
            Ok(())
        } else {
            Err(PaymentError::NotFound)
        },
        Option::None => Err(PaymentError::NotFound),
    }
}

/// Enforces ownership of a shop the commerce collaborator resolved
/// (`None` where it found nothing).  Fails not-found both for a missing
/// shop and for an ownership mismatch, indistinguishably.
pub fn check_shop_and_owner(shop: &Option<ShopResponse>, user_id: &String) -> (r: Result<
    (),
    PaymentError,
>)
    ensures
        r == spec_check_shop_and_owner(*shop, user_id@),
{
    match shop {
        Some(s) => if s.user_id == *user_id {
            Ok(())
        } else {
            Err(PaymentError::NotFound)
        },
        None => Err(PaymentError::NotFound),
    }
}

/// Resolution by a non-owner is identical in shape to resolution of a
/// nonexistent shop: both are the same not-found error, so nothing
/// leaks about which shops exist.
pub proof fn lemma_non_owner_looks_like_missing_shop(shop: ShopResponse, user_id: Seq<char>)
    requires
        shop.user_id@ != user_id,
    ensures
        spec_check_shop_and_owner(Some(shop), user_id) == spec_check_shop_and_owner(
            None,
            user_id,
        ),
        spec_check_shop_and_owner(Some(shop), user_id) == Err::<(), PaymentError>(
            PaymentError::NotFound,
        ),
{
}

/// A link record of the store's abstract state, keyed by shop id.
pub struct AccountLinkModel {
    pub stripe_account_id: Seq<char>,
    pub user_id: Seq<char>,
}

/// What the store answers a lookup keyed by shop and owner: the link,
/// if one is there and the owner matches.
pub open spec fn spec_get_for_user(
    store: Map<Seq<char>, AccountLinkModel>,
    shop_id: Seq<char>,
    user_id: Seq<char>,
) -> Option<AccountLinkModel> {
    if store.contains_key(shop_id) && store[shop_id].user_id == user_id {
        Some(store[shop_id])
    } else {
        None
    }
}

/// One run of account linking against a store state, after ownership
/// has been enforced: an existing link for this shop and owner is
/// returned as it is; otherwise a fresh sub-account id is linked and
/// returned.  The result is the new store state and the sub-account id
/// handed back to the caller.
pub open spec fn spec_ensure_account(
    store: Map<Seq<char>, AccountLinkModel>,
    shop_id: Seq<char>,
    user_id: Seq<char>,
    fresh_account_id: Seq<char>,
) -> (Map<Seq<char>, AccountLinkModel>, Seq<char>) {
    match spec_get_for_user(store, shop_id, user_id) {
        Some(link) => (store, link.stripe_account_id),
        None => (
            store.insert(
                shop_id,
                AccountLinkModel { stripe_account_id: fresh_account_id, user_id },
            ),
            fresh_account_id,
        ),
    }
}

/// Account linking is idempotent: two sequential runs for the same shop
/// and owner return the same sub-account id, and the second run leaves
/// the store untouched, whatever fresh id it had at hand.
pub proof fn lemma_ensure_account_idempotent(
    store: Map<Seq<char>, AccountLinkModel>,
    shop_id: Seq<char>,
    user_id: Seq<char>,
    fresh1: Seq<char>,
    fresh2: Seq<char>,
)
    ensures
        ({
            let (store1, id1) = spec_ensure_account(store, shop_id, user_id, fresh1);
            let (store2, id2) = spec_ensure_account(store1, shop_id, user_id, fresh2);
            id2 == id1 && store2 == store1
        }),
{
}

/// The decision after the store lookup: reuse the link that is there,
/// or create a fresh sub-account and link it.
#[derive(Debug, Clone)]
pub enum EnsureAccountStep {
    /// A link exists for this shop and owner: fetch its live status and
    /// answer with it.
    UseExisting(StripeAccount),
    /// No link yet: create a processor sub-account and persist the
    /// link.
    CreateNew,
}

/// Decides the linking step from the store's answer to the
/// shop-and-owner lookup.
pub fn plan_ensure_account(existing: Option<StripeAccount>) -> (r: EnsureAccountStep)
    ensures
        existing matches Some(link) ==> r matches EnsureAccountStep::UseExisting(l) && l
            == link,
        existing is None ==> r is CreateNew,
{
    match existing {
        Some(link) => EnsureAccountStep::UseExisting(link),
        None => EnsureAccountStep::CreateNew,
    }
}

/// How the insert of a fresh link ends.
#[derive(Debug, Clone)]
pub enum LinkInsertOutcome {
    /// The link was persisted.
    Linked(StripeAccount),
    /// Another request linked the shop first: re-fetch and answer with
    /// the link that won, rather than failing.
    Refetch,
    /// The store failed for some other reason.
    Failed(PaymentError),
}

/// Decides what follows the insert of a fresh link.  A uniqueness
/// violation means a concurrent request won the race; it is treated as
/// "already exists, re-fetch", never surfaced as a failure.
pub fn handle_link_insert(result: Result<StripeAccount, DbErrorClass>) -> (r: LinkInsertOutcome)
    ensures
        result matches Ok(link) ==> r matches LinkInsertOutcome::Linked(l) && l == link,
        result matches Err(class) ==> (if class is UniqueViolation {
            r is Refetch
        } else {
            r matches LinkInsertOutcome::Failed(e) && e == spec_db_error_status(class)
        }),
{
    match result {
        Ok(link) => LinkInsertOutcome::Linked(link),
        Err(class) => if class == DbErrorClass::UniqueViolation {
            LinkInsertOutcome::Refetch
        } else {
            LinkInsertOutcome::Failed(crate::db_errors::db_error_status(class))
        },
    }
}

/// Requires a link to be there: the onboarding-link and account-detail
/// paths exist only for a shop the requester has already linked.
pub fn require_link(existing: Option<StripeAccount>) -> (r: Result<StripeAccount, PaymentError>)
    ensures
        existing matches Some(link) ==> r matches Ok(l) && l == link,
        existing is None ==> (r matches Err(e) && e is NotFound),
{
    match existing {
        Some(link) => Ok(link),
        None => Err(PaymentError::NotFound),
    }
}

/// The public, unauthenticated status lookup: no link means an empty
/// answer, a link is returned with its live enablement flags folded in.
pub fn get_account_response(
    existing: Option<StripeAccount>,
    charges_enabled: Option<bool>,
    details_submitted: Option<bool>,
) -> (r: Option<StripeAccountResponse>)
    ensures
        existing is None ==> r is None,
        existing matches Some(link) ==> r matches Some(m) && m.shop_id == link.shop_id
            && m.stripe_account_id == link.stripe_account_id && m.enabled
            == spec_account_enabled(charges_enabled, details_submitted),
{
    match existing {
        Some(link) => {
            let enabled = account_enabled(charges_enabled, details_submitted);
            Some(to_response(&link, enabled))
        },
        None => None,
    }
}

/// The owner's detail lookup: the account message plus the raw
/// enablement flags, absent flags counted as false.
pub fn account_details_response(
    link: &StripeAccount,
    charges_enabled: Option<bool>,
    details_submitted: Option<bool>,
) -> (r: (StripeAccountResponse, StripeAccountDetails))
    ensures
        r.0.shop_id == link.shop_id,
        r.0.stripe_account_id == link.stripe_account_id,
        r.0.enabled == spec_account_enabled(charges_enabled, details_submitted),
        r.1.charges_enabled == (charges_enabled == Some(true)),
        r.1.details_submitted == (details_submitted == Some(true)),
{
    let enabled = account_enabled(charges_enabled, details_submitted);
    let charges = match charges_enabled {
        Some(b) => b,
        None => false,
    };
    let details = match details_submitted {
        Some(b) => b,
        None => false,
    };
    (
        to_response(link, enabled),
        StripeAccountDetails { charges_enabled: charges, details_submitted: details },
    )
}

} // verus!
