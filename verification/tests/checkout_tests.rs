use payment::checkout::assemble_checkout_session;
use payment::checkout::redirect_url;
use payment::checkout::CheckoutMode;
use payment::model::OfferImageResponse;
use payment::model::OfferResponse;
use payment::model::PaymentError;
use payment::model::Price;
use payment::model::Recurring;
use payment::model::BillingInterval;
use payment::model::Currency;
use payment::model::ShippingRateResponse;
use payment::model::ShopResponse;

const EUR: i32 = 1;
const ONE_TIME: i32 = 1;
const RECURRING: i32 = 2;
const PHYSICAL: i32 = 1;
const DIGITAL: i32 = 2;
const SERVICE: i32 = 3;
const MONTH: i32 = 3;

fn shop() -> ShopResponse {
    ShopResponse {
        shop_id: "7e55a154-7e04-4f84-b9f6-6b8e9f4a31d2".to_string(),
        user_id: "owner-1".to_string(),
        name: "Garden Tools".to_string(),
        platform_fee_percent: 2,
        minimum_platform_fee_cent: 50,
    }
}

fn one_time_price(unit_amount: u32) -> Price {
    Price {
        currency: EUR,
        price_type: ONE_TIME,
        billing_scheme: 1,
        unit_amount,
        recurring: None,
    }
}

fn recurring_price(unit_amount: u32, trial_period_days: Option<u32>) -> Price {
    Price {
        currency: EUR,
        price_type: RECURRING,
        billing_scheme: 1,
        unit_amount,
        recurring: Some(Recurring {
            interval: MONTH,
            interval_count: 1,
            trial_period_days,
        }),
    }
}

fn offer(offer_type: i32, price: Option<Price>) -> OfferResponse {
    OfferResponse {
        offer_id: "offer-1".to_string(),
        shop_id: "7e55a154-7e04-4f84-b9f6-6b8e9f4a31d2".to_string(),
        user_id: "owner-1".to_string(),
        name: "Premium Shears".to_string(),
        description: "Sharp and sturdy".to_string(),
        offer_type,
        images: vec![
            OfferImageResponse {
                offer_image_id: "img-1".to_string(),
                image_url: "https://img.example/1.png".to_string(),
                ordering: 0,
            },
            OfferImageResponse {
                offer_image_id: "img-2".to_string(),
                image_url: "https://img.example/2.png".to_string(),
                ordering: 1,
            },
        ],
        price,
    }
}

fn canonical_shop_id() -> String {
    "7e55a154-7e04-4f84-b9f6-6b8e9f4a31d2".to_string()
}

fn assemble(
    offer: &OfferResponse,
    shipping_rate: &Option<ShippingRateResponse>,
    buyer: Option<String>,
) -> Result<payment::checkout::CheckoutSession, PaymentError> {
    assemble_checkout_session(
        offer,
        &shop(),
        canonical_shop_id(),
        shipping_rate,
        buyer,
        "https://shop.example/success".to_string(),
        "https://shop.example/cancel".to_string(),
    )
}

#[test]
fn offer_without_price_fails_before_any_processor_work() {
    let offer = offer(PHYSICAL, None);
    let r = assemble(&offer, &None, None);
    assert!(matches!(r, Err(PaymentError::Internal)));
}

#[test]
fn unspecified_price_type_is_fatal() {
    let mut price = one_time_price(1000);
    price.price_type = 0;
    let offer = offer(PHYSICAL, Some(price));
    let r = assemble(&offer, &None, None);
    assert!(matches!(r, Err(PaymentError::Internal)));
}

#[test]
fn anonymous_digital_subscription_is_unauthenticated() {
    let offer = offer(DIGITAL, Some(recurring_price(999, None)));
    let r = assemble(&offer, &None, None);
    assert!(matches!(r, Err(PaymentError::Unauthenticated)));
}

#[test]
fn authenticated_digital_subscription_carries_buyer_in_metadata() {
    let offer = offer(DIGITAL, Some(recurring_price(999, None)));
    let s = assemble(&offer, &None, Some("buyer-7".to_string())).unwrap();
    assert_eq!(s.metadata.user_id.as_deref(), Some("buyer-7"));
    assert_eq!(s.metadata.offer_id, "offer-1");
    assert_eq!(s.metadata.shop_id, canonical_shop_id());
}

#[test]
fn anonymous_service_subscription_is_allowed_without_buyer_metadata() {
    let offer = offer(SERVICE, Some(recurring_price(999, None)));
    let s = assemble(&offer, &None, None).unwrap();
    assert!(s.metadata.user_id.is_none());
}

#[test]
fn one_time_physical_with_all_countries_shipping() {
    let rate = ShippingRateResponse {
        shipping_rate_id: "rate-1".to_string(),
        offer_id: "offer-1".to_string(),
        amount: 495,
        currency: EUR,
        all_countries: true,
        specific_countries: vec![],
    };
    let offer = offer(PHYSICAL, Some(one_time_price(588)));
    let s = assemble(&offer, &Some(rate), None).unwrap();
    assert_eq!(s.mode, CheckoutMode::Payment);
    let option = s.shipping_option.unwrap();
    assert_eq!(option.display_name, "SHIPPING");
    assert_eq!(option.fixed_amount, 495);
    assert_eq!(option.currency, Currency::Eur);
    let countries = s.shipping_address_countries.unwrap();
    assert_eq!(countries.len(), 236);
    assert_eq!(countries[0], 1);
    assert_eq!(countries[235], 236);
    // the fee of the vector (588, 2, 50)
    assert_eq!(s.payment_intent_data.unwrap().application_fee_amount, 50);
}

#[test]
fn one_time_specific_countries_keep_order_and_drop_unknown_codes() {
    let rate = ShippingRateResponse {
        shipping_rate_id: "rate-1".to_string(),
        offer_id: "offer-1".to_string(),
        amount: 250,
        currency: EUR,
        all_countries: false,
        specific_countries: vec![57, 0, 12, 999, 101],
    };
    let offer = offer(PHYSICAL, Some(one_time_price(1499)));
    let s = assemble(&offer, &Some(rate), None).unwrap();
    let countries = s.shipping_address_countries.unwrap();
    assert_eq!(countries, vec![57, 12, 101]);
}

#[test]
fn one_time_without_shipping_rate_has_no_shipping() {
    let offer = offer(SERVICE, Some(one_time_price(1499)));
    let s = assemble(&offer, &None, None).unwrap();
    assert!(s.shipping_option.is_none());
    assert!(s.shipping_address_countries.is_none());
    assert_eq!(s.payment_intent_data.unwrap().application_fee_amount, 50);
    assert!(s.subscription_data.is_none());
    assert!(s.line_item.recurring.is_none());
}

#[test]
fn one_time_with_recurring_terms_is_fatal() {
    let mut price = one_time_price(1000);
    price.recurring = Some(Recurring {
        interval: MONTH,
        interval_count: 1,
        trial_period_days: None,
    });
    let offer = offer(PHYSICAL, Some(price));
    let r = assemble(&offer, &None, None);
    assert!(matches!(r, Err(PaymentError::Internal)));
}

#[test]
fn recurring_without_recurring_terms_is_fatal() {
    let mut price = recurring_price(999, None);
    price.recurring = None;
    let offer = offer(SERVICE, Some(price));
    let r = assemble(&offer, &None, None);
    assert!(matches!(r, Err(PaymentError::Internal)));
}

#[test]
fn unspecified_recurring_interval_is_fatal() {
    let mut price = recurring_price(999, None);
    price.recurring.as_mut().unwrap().interval = 0;
    let offer = offer(SERVICE, Some(price));
    let r = assemble(&offer, &None, None);
    assert!(matches!(r, Err(PaymentError::Internal)));
}

#[test]
fn unsupported_price_currency_is_fatal() {
    let mut price = one_time_price(1000);
    price.currency = 0;
    let offer = offer(PHYSICAL, Some(price));
    let r = assemble(&offer, &None, None);
    assert!(matches!(r, Err(PaymentError::Internal)));
}

#[test]
fn unsupported_shipping_rate_currency_is_fatal() {
    let rate = ShippingRateResponse {
        shipping_rate_id: "rate-1".to_string(),
        offer_id: "offer-1".to_string(),
        amount: 250,
        currency: 99,
        all_countries: true,
        specific_countries: vec![],
    };
    let offer = offer(PHYSICAL, Some(one_time_price(1000)));
    let r = assemble(&offer, &Some(rate), None);
    assert!(matches!(r, Err(PaymentError::Internal)));
}

#[test]
fn recurring_session_carries_interval_fee_and_trial() {
    let offer = offer(SERVICE, Some(recurring_price(588, Some(14))));
    let s = assemble(&offer, &None, None).unwrap();
    assert_eq!(s.mode, CheckoutMode::Subscription);
    assert!(s.payment_intent_data.is_none());
    let sub = s.subscription_data.unwrap();
    // the fee of the vector (588, 2, 50): 8.50 % in hundredths
    assert_eq!(sub.application_fee_percent_hundredths, 850);
    assert_eq!(sub.trial_period_days, Some(14));
    let rec = s.line_item.recurring.unwrap();
    assert_eq!(rec.interval, BillingInterval::Month);
    assert_eq!(rec.interval_count, 1);
}

#[test]
fn line_item_shows_the_offer() {
    let offer = offer(PHYSICAL, Some(one_time_price(1234)));
    let s = assemble(&offer, &None, None).unwrap();
    assert_eq!(s.line_item.unit_amount, 1234);
    assert_eq!(s.line_item.currency, Currency::Eur);
    assert_eq!(s.line_item.quantity, 1);
    assert!(s.line_item.adjustable_quantity_enabled);
    assert_eq!(s.line_item.adjustable_quantity_minimum, 1);
    let product = s.line_item.product_data;
    assert_eq!(product.name, "Premium Shears");
    assert_eq!(product.description.as_deref(), Some("Sharp and sturdy"));
    assert_eq!(
        product.images.unwrap(),
        vec![
            "https://img.example/1.png".to_string(),
            "https://img.example/2.png".to_string()
        ]
    );
}

#[test]
fn empty_description_and_images_are_omitted() {
    let mut offer = offer(PHYSICAL, Some(one_time_price(1234)));
    offer.description = String::new();
    offer.images = vec![];
    let s = assemble(&offer, &None, None).unwrap();
    assert!(s.line_item.product_data.description.is_none());
    assert!(s.line_item.product_data.images.is_none());
}

#[test]
fn urls_are_kept_verbatim() {
    let offer = offer(PHYSICAL, Some(one_time_price(1234)));
    let s = assemble(&offer, &None, None).unwrap();
    assert_eq!(s.success_url, "https://shop.example/success");
    assert_eq!(s.cancel_url, "https://shop.example/cancel");
}

#[test]
fn missing_redirect_url_is_fatal() {
    assert_eq!(redirect_url(Some("https://pay.example/s/1".to_string())).unwrap(), "https://pay.example/s/1");
    assert!(matches!(redirect_url(None), Err(PaymentError::Internal)));
}
