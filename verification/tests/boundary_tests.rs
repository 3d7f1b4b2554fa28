use payment::auth::bearer_token;
use payment::auth::user_id_from_claims;
use payment::countries::all_country_codes;
use payment::countries::country_alpha2;
use payment::countries::country_code;
use payment::countries::get_shipping_address_countries;
use payment::ids::parse_uuid;
use payment::model::get_currency;
use payment::model::get_recurring_interval;
use payment::model::offer_type_from_i32;
use payment::model::price_type_from_i32;
use payment::model::recurring_interval_from_i32;
use payment::model::BillingInterval;
use payment::model::Currency;
use payment::model::OfferType;
use payment::model::PaymentError;
use payment::model::PriceType;
use payment::model::RecurringInterval;
use payment::model::StripeAccountIden;

#[test]
fn bearer_token_takes_what_follows_the_first_space() {
    assert_eq!(bearer_token(Some("Bearer abc.def.ghi")).unwrap(), "abc.def.ghi");
    assert_eq!(bearer_token(Some("Basic a b c")).unwrap(), "a b c");
    assert_eq!(bearer_token(Some("Bearer t\u{e4}k\u{e9}n")).unwrap(), "t\u{e4}k\u{e9}n");
}

#[test]
fn missing_or_malformed_header_is_unauthenticated() {
    assert!(matches!(bearer_token(None), Err(PaymentError::Unauthenticated)));
    assert!(matches!(bearer_token(Some("token-without-scheme")), Err(PaymentError::Unauthenticated)));
    assert!(matches!(bearer_token(Some("")), Err(PaymentError::Unauthenticated)));
}

#[test]
fn claims_without_subject_are_unauthenticated() {
    assert!(matches!(user_id_from_claims(None), Err(PaymentError::Unauthenticated)));
    assert_eq!(user_id_from_claims(Some("user-1".to_string())).unwrap(), "user-1");
}

#[test]
fn valid_uuid_is_normalized_to_canonical_form() {
    let r = parse_uuid("7E55A154-7E04-4F84-B9F6-6B8E9F4A31D2", "shop_id").unwrap();
    assert_eq!(r, "7e55a154-7e04-4f84-b9f6-6b8e9f4a31d2");
    let r = parse_uuid("7e55a1547e044f84b9f66b8e9f4a31d2", "shop_id").unwrap();
    assert_eq!(r, "7e55a154-7e04-4f84-b9f6-6b8e9f4a31d2");
}

#[test]
fn malformed_uuid_names_the_field() {
    match parse_uuid("not-a-uuid", "shop_id") {
        Err(PaymentError::InvalidArgument { field }) => assert_eq!(field, "shop_id"),
        _ => panic!("expected an invalid-argument error"),
    }
}

#[test]
fn currency_codes_parse_to_the_closed_set() {
    assert_eq!(get_currency(1).unwrap(), Currency::Eur);
    assert!(matches!(get_currency(0), Err(PaymentError::Internal)));
    assert!(matches!(get_currency(2), Err(PaymentError::Internal)));
    assert!(matches!(get_currency(-1), Err(PaymentError::Internal)));
}

#[test]
fn wire_enums_fall_back_to_unspecified() {
    assert_eq!(price_type_from_i32(1), PriceType::OneTime);
    assert_eq!(price_type_from_i32(2), PriceType::Recurring);
    assert_eq!(price_type_from_i32(3), PriceType::Unspecified);
    assert_eq!(offer_type_from_i32(2), OfferType::Digital);
    assert_eq!(offer_type_from_i32(77), OfferType::Unspecified);
    assert_eq!(recurring_interval_from_i32(4), RecurringInterval::Year);
    assert_eq!(recurring_interval_from_i32(-3), RecurringInterval::Unspecified);
}

#[test]
fn intervals_validate_against_unspecified() {
    assert_eq!(get_recurring_interval(RecurringInterval::Day).unwrap(), BillingInterval::Day);
    assert_eq!(get_recurring_interval(RecurringInterval::Week).unwrap(), BillingInterval::Week);
    assert_eq!(get_recurring_interval(RecurringInterval::Month).unwrap(), BillingInterval::Month);
    assert_eq!(get_recurring_interval(RecurringInterval::Year).unwrap(), BillingInterval::Year);
    assert!(matches!(
        get_recurring_interval(RecurringInterval::Unspecified),
        Err(PaymentError::Internal)
    ));
}

#[test]
fn country_table_ends_hold() {
    assert_eq!(country_alpha2(1), Some(('A', 'C')));
    assert_eq!(country_alpha2(236), Some(('Z', 'Z')));
    assert_eq!(country_alpha2(0), None);
    assert_eq!(country_alpha2(237), None);
    assert_eq!(country_alpha2(-5), None);
}

#[test]
fn country_table_round_trips() {
    for code in 1..=236 {
        let (c0, c1) = country_alpha2(code).unwrap();
        assert_eq!(country_code(c0, c1), Some(code));
    }
    assert_eq!(country_code('D', 'E'), Some(54));
    assert_eq!(country_alpha2(54), Some(('D', 'E')));
    assert_eq!(country_code('Q', 'Q'), None);
}

#[test]
fn the_full_country_set_is_every_table_code_in_order() {
    let all = all_country_codes();
    assert_eq!(all.len(), 236);
    assert_eq!(all[0], 1);
    assert_eq!(all[235], 236);
    for (i, code) in all.iter().enumerate() {
        assert_eq!(*code, i as i32 + 1);
    }
}

#[test]
fn address_collection_list_follows_the_rate() {
    let all = get_shipping_address_countries(true, &vec![]);
    assert_eq!(all.len(), 236);
    let some = get_shipping_address_countries(false, &vec![3, 0, 300, 54]);
    assert_eq!(some, vec![3, 54]);
}

#[test]
fn link_table_identifiers() {
    assert_eq!(StripeAccountIden::Table.unquoted(), "stripe_accounts");
    assert_eq!(StripeAccountIden::StripeAccountId.unquoted(), "stripe_account_id");
    assert_eq!(StripeAccountIden::ShopId.unquoted(), "shop_id");
    assert_eq!(StripeAccountIden::UserId.unquoted(), "user_id");
    assert_eq!(StripeAccountIden::CreatedAt.unquoted(), "created_at");
    assert_eq!(StripeAccountIden::UpdatedAt.unquoted(), "updated_at");
}
