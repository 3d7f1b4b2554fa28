use payment::account::account_enabled;
use payment::account::account_details_response;
use payment::account::check_shop_and_owner;
use payment::account::get_account_response;
use payment::account::handle_link_insert;
use payment::account::plan_ensure_account;
use payment::account::require_link;
use payment::account::to_response;
use payment::account::EnsureAccountStep;
use payment::account::LinkInsertOutcome;
use payment::db_errors::db_error_status;
use payment::db_errors::should_ignore_ts_query_error;
use payment::db_errors::DbErrorClass;
use payment::model::PaymentError;
use payment::model::ShopResponse;
use payment::model::StripeAccount;
use payment::subscription::plan_cancel_subscription;
use payment::subscription::plan_resume_subscription;

fn shop(owner: &str) -> ShopResponse {
    ShopResponse {
        shop_id: "7e55a154-7e04-4f84-b9f6-6b8e9f4a31d2".to_string(),
        user_id: owner.to_string(),
        name: "Garden Tools".to_string(),
        platform_fee_percent: 2,
        minimum_platform_fee_cent: 50,
    }
}

fn link(account_id: &str) -> StripeAccount {
    StripeAccount {
        stripe_account_id: account_id.to_string(),
        shop_id: "7e55a154-7e04-4f84-b9f6-6b8e9f4a31d2".to_string(),
        user_id: "owner-1".to_string(),
        created_at: 1_700_000_000,
        updated_at: 1_700_000_000,
    }
}

// One run of account linking against an in-memory store, after the
// ownership check: reuse the stored link or insert the fresh id.
fn ensure_account(
    store: &mut Option<StripeAccount>,
    user_id: &str,
    fresh_account_id: &str,
) -> String {
    let existing = store.clone().filter(|l| l.user_id == user_id);
    match plan_ensure_account(existing) {
        EnsureAccountStep::UseExisting(l) => l.stripe_account_id,
        EnsureAccountStep::CreateNew => {
            let mut fresh = link(fresh_account_id);
            fresh.user_id = user_id.to_string();
            match handle_link_insert(Ok(fresh)) {
                LinkInsertOutcome::Linked(l) => {
                    *store = Some(l.clone());
                    l.stripe_account_id
                }
                _ => unreachable!(),
            }
        }
    }
}

#[test]
fn ensure_account_is_idempotent() {
    let mut store: Option<StripeAccount> = None;
    let first = ensure_account(&mut store, "owner-1", "acct_A");
    let second = ensure_account(&mut store, "owner-1", "acct_B");
    assert_eq!(first, "acct_A");
    assert_eq!(second, first);
}

#[test]
fn losing_an_insert_race_means_refetch_not_failure() {
    let r = handle_link_insert(Err(DbErrorClass::UniqueViolation));
    assert!(matches!(r, LinkInsertOutcome::Refetch));
}

#[test]
fn other_insert_failures_surface_translated() {
    let r = handle_link_insert(Err(DbErrorClass::ForeignKeyViolation));
    assert!(matches!(
        r,
        LinkInsertOutcome::Failed(PaymentError::FailedPrecondition)
    ));
    let r = handle_link_insert(Err(DbErrorClass::Pool));
    assert!(matches!(r, LinkInsertOutcome::Failed(PaymentError::Internal)));
}

#[test]
fn non_owner_fails_exactly_like_missing_shop() {
    let by_non_owner = check_shop_and_owner(&Some(shop("owner-1")), &"intruder".to_string());
    let missing = check_shop_and_owner(&None, &"intruder".to_string());
    assert!(matches!(by_non_owner, Err(PaymentError::NotFound)));
    assert!(matches!(missing, Err(PaymentError::NotFound)));
}

#[test]
fn owner_passes_ownership_check() {
    let r = check_shop_and_owner(&Some(shop("owner-1")), &"owner-1".to_string());
    assert!(r.is_ok());
}

#[test]
fn account_enabled_needs_both_flags() {
    assert!(account_enabled(Some(true), Some(true)));
    assert!(!account_enabled(Some(true), Some(false)));
    assert!(!account_enabled(Some(false), Some(true)));
    assert!(!account_enabled(None, Some(true)));
    assert!(!account_enabled(Some(true), None));
    assert!(!account_enabled(None, None));
}

#[test]
fn response_carries_link_and_enabled_flag() {
    let r = to_response(&link("acct_A"), true);
    assert_eq!(r.shop_id, "7e55a154-7e04-4f84-b9f6-6b8e9f4a31d2");
    assert_eq!(r.stripe_account_id, "acct_A");
    assert!(r.enabled);
}

#[test]
fn public_status_lookup_of_unlinked_shop_is_empty() {
    assert!(get_account_response(None, Some(true), Some(true)).is_none());
}

#[test]
fn public_status_lookup_folds_flags() {
    let r = get_account_response(Some(link("acct_A")), Some(true), Some(false)).unwrap();
    assert_eq!(r.stripe_account_id, "acct_A");
    assert!(!r.enabled);
}

#[test]
fn details_lookup_reports_raw_flags() {
    let (msg, details) = account_details_response(&link("acct_A"), Some(true), None);
    assert!(!msg.enabled);
    assert!(details.charges_enabled);
    assert!(!details.details_submitted);
}

#[test]
fn onboarding_needs_an_existing_link() {
    assert!(matches!(require_link(None), Err(PaymentError::NotFound)));
    let l = require_link(Some(link("acct_A"))).unwrap();
    assert_eq!(l.stripe_account_id, "acct_A");
}

#[test]
fn db_error_classes_map_to_the_taxonomy() {
    assert!(matches!(
        db_error_status(DbErrorClass::UniqueViolation),
        PaymentError::AlreadyExists
    ));
    assert!(matches!(
        db_error_status(DbErrorClass::ForeignKeyViolation),
        PaymentError::FailedPrecondition
    ));
    assert!(matches!(db_error_status(DbErrorClass::SyntaxError), PaymentError::Internal));
    assert!(matches!(db_error_status(DbErrorClass::OtherDatabase), PaymentError::Internal));
    assert!(matches!(db_error_status(DbErrorClass::CreatePool), PaymentError::Internal));
    assert!(matches!(db_error_status(DbErrorClass::QueryBuild), PaymentError::Internal));
}

#[test]
fn only_the_text_query_syntax_error_is_swallowed() {
    assert!(should_ignore_ts_query_error(DbErrorClass::SyntaxError, Some("toTSQuery")));
    assert!(!should_ignore_ts_query_error(DbErrorClass::SyntaxError, Some("parser")));
    assert!(!should_ignore_ts_query_error(DbErrorClass::SyntaxError, None));
    assert!(!should_ignore_ts_query_error(DbErrorClass::UniqueViolation, Some("toTSQuery")));
}

#[test]
fn cancel_needs_a_link_and_asks_for_period_end() {
    let r = plan_cancel_subscription(None, "sub_1".to_string());
    assert!(matches!(r, Err(PaymentError::NotFound)));
    let u = plan_cancel_subscription(Some(link("acct_A")), "sub_1".to_string()).unwrap();
    assert_eq!(u.stripe_account_id, "acct_A");
    assert_eq!(u.stripe_subscription_id, "sub_1");
    assert!(u.cancel_at_period_end);
}

#[test]
fn resume_needs_a_link() {
    let r = plan_resume_subscription(None, "sub_1".to_string());
    assert!(matches!(r, Err(PaymentError::NotFound)));
    let u = plan_resume_subscription(Some(link("acct_A")), "sub_1".to_string()).unwrap();
    assert_eq!(u.stripe_account_id, "acct_A");
    assert_eq!(u.stripe_subscription_id, "sub_1");
}
