//! Checkout-session assembly.
//!
//! The assembler turns an offer, its price, the owning shop's fee
//! configuration, an optional shipping rate and an optional
//! authenticated buyer into a complete checkout-session request: mode,
//! line item, platform fee, shipping options and reconciliation
//! metadata.  It is pure — every external lookup happens before it and
//! the processor call after it, so a rejected request provably fails
//! before any session is created.
//!
//! Rejections, in the order the assembler checks them: an offer without
//! a price; a price whose type is unspecified; a price whose recurring
//! terms contradict its type (`recurring` must be present iff the price
//! is recurring); an anonymous buyer on a digital recurring offer
//! (unauthenticated — anonymous one-time and anonymous physical or
//! service purchases are allowed); an unsupported currency on the
//! shipping rate or the price; an unspecified billing interval.

use crate::countries::{get_shipping_address_countries, spec_allowed_list, COUNTRY_COUNT};
use crate::fees::{
    calculate_fee_amount, calculate_fee_percent_hundredths, spec_fee_amount,
    spec_fee_percent_hundredths,
};
use crate::model::{
    get_currency, get_recurring_interval, offer_type_from_i32, price_type_from_i32,
    recurring_interval_from_i32, spec_get_currency, spec_get_recurring_interval,
    spec_offer_type_from_i32, spec_price_type_from_i32, spec_recurring_interval_from_i32,
    BillingInterval, Currency, OfferImageResponse, OfferResponse, OfferType, PaymentError,
    Price, PriceType, Recurring, ShippingRateResponse, ShopResponse,
};
use vstd::prelude::*;
use vstd::string::*;

verus! {

/// Whether a session charges once or starts a subscription.
#[derive(Debug, Clone, Copy, PartialEq, Eq, Structural)]
pub enum CheckoutMode {
    Payment,
    Subscription,
}

/// What the buyer sees on the payment page: the offer's name, its
/// description if it has one, and its image URLs if it has any.
#[derive(Debug, Clone)]
pub struct CheckoutProductData {
    pub name: String,
    pub description: Option<String>,
    pub images: Option<Vec<String>>,
}

/// The recurring terms of a subscription line item.
#[derive(Debug, Clone)]
pub struct CheckoutRecurring {
    pub interval: BillingInterval,
    pub interval_count: u64,
}

/// The single line item of a session: one unit of the offer at its
/// price, with the quantity adjustable upward from one.
#[derive(Debug, Clone)]
pub struct CheckoutLineItem {
    pub currency: Currency,
    pub unit_amount: i64,
    pub product_data: CheckoutProductData,
    pub recurring: Option<CheckoutRecurring>,
    pub quantity: u64,
    pub adjustable_quantity_enabled: bool,
    pub adjustable_quantity_minimum: u64,
}

/// Reconciliation metadata attached to every session: the offer and
/// shop it belongs to, and — for digital subscriptions only — the
/// buyer the subscription will be assigned to.
#[derive(Debug, Clone)]
pub struct CheckoutMetadata {
    pub offer_id: String,
    pub shop_id: String,
    pub user_id: Option<String>,
}

/// The payment-intent terms of a one-time session: the platform fee as
/// an absolute amount.
#[derive(Debug, Clone)]
pub struct PaymentIntentData {
    pub application_fee_amount: i64,
}

/// The subscription terms of a recurring session: the platform fee as a
/// percentage in hundredths, and an optional trial period.
#[derive(Debug, Clone)]
pub struct SubscriptionData {
    pub application_fee_percent_hundredths: u64,
    pub trial_period_days: Option<u32>,
}

/// A fixed-amount shipping option offered at checkout.
#[derive(Debug, Clone)]
pub struct ShippingOption {
    pub display_name: String,
    pub fixed_amount: i64,
    pub currency: Currency,
}

/// A complete checkout-session request, ready for the processor.  It is
/// assembled per call and never stored; its only observable output is
/// the redirect URL the processor answers with.
#[derive(Debug, Clone)]
pub struct CheckoutSession {
    pub success_url: String,
    pub cancel_url: String,
    pub mode: CheckoutMode,
    pub payment_intent_data: Option<PaymentIntentData>,
    pub subscription_data: Option<SubscriptionData>,
    pub shipping_address_countries: Option<Vec<i32>>,
    pub shipping_option: Option<ShippingOption>,
    pub metadata: CheckoutMetadata,
    pub line_item: CheckoutLineItem,
}

/// Extracts the redirect URL from the processor's answer to a session
/// creation.  The URL is returned verbatim; its absence is a fatal
/// internal error.
pub fn redirect_url(url: Option<String>) -> (r: Result<String, PaymentError>)
    ensures
        url matches Some(u) ==> r matches Ok(link) && link == u,
        url is None ==> (r matches Err(e) && e is Internal),
{
    match url {
        Some(u) => Ok(u),
        None => Err(PaymentError::Internal),
    }
}

/// The display name of the shipping option.
pub fn shipping_rate_key() -> (r: String)
    ensures
        r@ == "SHIPPING"@,
{
    String::from_str("SHIPPING")
}

/// Why assembly rejects its input, or `None` where it succeeds.  The
/// checks run in this order, so the first failing one names the error.
pub open spec fn spec_assembly_error(
    offer: OfferResponse,
    shipping_rate: Option<ShippingRateResponse>,
    buyer_user_id: Option<String>,
) -> Option<PaymentError> {
    match offer.price {
        Option::None => Some(PaymentError::Internal),
        Option::Some(p) => match spec_price_type_from_i32(p.price_type) {
            PriceType::Unspecified => Some(PaymentError::Internal),
            PriceType::OneTime => if p.recurring is Some {
                Some(PaymentError::Internal)
            } else if shipping_rate matches Some(rate) && spec_get_currency(rate.currency)
                is Err {
                Some(PaymentError::Internal)
            } else if spec_get_currency(p.currency) is Err {
                Some(PaymentError::Internal)
            } else {
                None
            },
            PriceType::Recurring => if spec_offer_type_from_i32(offer.offer_type)
                == OfferType::Digital && buyer_user_id is None {
                Some(PaymentError::Unauthenticated)
            } else {
                match p.recurring {
                    Option::None => Some(PaymentError::Internal),
                    Option::Some(rec) => if spec_get_recurring_interval(
                        spec_recurring_interval_from_i32(rec.interval),
                    ) is Err {
                        Some(PaymentError::Internal)
                    } else if spec_get_currency(p.currency) is Err {
                        Some(PaymentError::Internal)
                    } else {
                        None
                    },
                }
            },
        },
    }
}

/// The product data shows the offer as it is: name kept, description
/// and image list attached exactly when non-empty.
pub open spec fn spec_product_data_ok(pd: CheckoutProductData, offer: OfferResponse) -> bool {
    &&& pd.name == offer.name
    &&& if offer.description@.len() == 0 {
        pd.description is None
    } else {
        pd.description == Some(offer.description)
    }
    &&& if offer.images@.len() == 0 {
        pd.images is None
    } else {
        pd.images matches Some(urls) && urls@ == offer.images@.map_values(
            |im: OfferImageResponse| im.image_url,
        )
    }
}

/// The line item sells one unit of the offer at the price's amount in
/// the price's (validated) currency, adjustable upward from one.
pub open spec fn spec_line_item_ok(
    li: CheckoutLineItem,
    p: Price,
    offer: OfferResponse,
) -> bool {
    &&& li.currency == Currency::Eur
    &&& li.unit_amount == p.unit_amount as i64
    &&& spec_product_data_ok(li.product_data, offer)
    &&& li.quantity == 1
    &&& li.adjustable_quantity_enabled
    &&& li.adjustable_quantity_minimum == 1
}

/// What every assembled session satisfies, whatever its mode: the
/// caller's URLs kept verbatim, reconciliation metadata naming the offer
/// and the shop, and the line item above.
pub open spec fn spec_session_common_ok(
    s: CheckoutSession,
    offer: OfferResponse,
    shop_id: String,
    success_url: String,
    cancel_url: String,
) -> bool {
    &&& s.success_url == success_url
    &&& s.cancel_url == cancel_url
    &&& s.metadata.offer_id == offer.offer_id
    &&& s.metadata.shop_id == shop_id
    &&& offer.price matches Some(p) && spec_line_item_ok(s.line_item, p, offer)
}

/// The address-collection list a shipping rate asks for: the full
/// supported set, or the rate's explicit allow-list with unknown codes
/// dropped.
pub open spec fn spec_shipping_countries_ok(cs: Seq<i32>, rate: ShippingRateResponse) -> bool {
    if rate.all_countries {
        cs.len() == COUNTRY_COUNT as int && (forall|i: int| 0 <= i < cs.len() ==> cs[i] == i + 1)
    } else {
        cs == spec_allowed_list(rate.specific_countries@)
    }
}

/// What a one-time session satisfies: payment mode, the platform fee as
/// an absolute amount, no subscription or recurring terms, no buyer in
/// the metadata, and — exactly when a shipping rate is configured — a
/// fixed-amount shipping option carrying the rate's amount and currency
/// with the address-collection list it asks for.
pub open spec fn spec_session_payment_ok(
    s: CheckoutSession,
    p: Price,
    shop: ShopResponse,
    shipping_rate: Option<ShippingRateResponse>,
) -> bool {
    &&& s.mode is Payment
    &&& s.subscription_data is None
    &&& s.line_item.recurring is None
    &&& s.metadata.user_id is None
    &&& s.payment_intent_data matches Some(pi) && pi.application_fee_amount == spec_fee_amount(
        p.unit_amount as int,
        shop.platform_fee_percent as int,
        shop.minimum_platform_fee_cent as int,
    )
    &&& match shipping_rate {
        Option::Some(rate) => {
            &&& s.shipping_option matches Some(o) && o.display_name@ == "SHIPPING"@
                && o.fixed_amount == rate.amount as i64 && o.currency == Currency::Eur
            &&& s.shipping_address_countries matches Some(cs) && spec_shipping_countries_ok(
                cs@,
                rate,
            )
        },
        Option::None => s.shipping_option is None && s.shipping_address_countries is None,
    }
}

/// What a recurring session satisfies: subscription mode, the platform
/// fee as a percentage in hundredths, the price's trial period and
/// recurring terms on the line item, no payment-intent or shipping
/// data, and the buyer in the metadata exactly for digital offers.
pub open spec fn spec_session_subscription_ok(
    s: CheckoutSession,
    p: Price,
    rec: Recurring,
    shop: ShopResponse,
    offer: OfferResponse,
    buyer_user_id: Option<String>,
) -> bool {
    &&& s.mode is Subscription
    &&& s.payment_intent_data is None
    &&& s.shipping_option is None
    &&& s.shipping_address_countries is None
    &&& s.subscription_data matches Some(sd) && sd.application_fee_percent_hundredths
        == spec_fee_percent_hundredths(
        p.unit_amount as int,
        shop.platform_fee_percent as int,
        shop.minimum_platform_fee_cent as int,
    ) && sd.trial_period_days == rec.trial_period_days
    &&& s.line_item.recurring matches Some(cr) && spec_get_recurring_interval(
        spec_recurring_interval_from_i32(rec.interval),
    ) == Ok::<BillingInterval, PaymentError>(cr.interval) && cr.interval_count
        == rec.interval_count as u64
    &&& if spec_offer_type_from_i32(offer.offer_type) == OfferType::Digital {
        s.metadata.user_id == buyer_user_id
    } else {
        s.metadata.user_id is None
    }
}

/// Builds the product data of the line item: the offer's name, its
/// description if non-empty, its image URLs if any.
fn build_product_data(offer: &OfferResponse) -> (r: CheckoutProductData)
    ensures
        spec_product_data_ok(r, *offer),
{
    let description = if offer.description.as_str().is_empty() {
        None
    } else {
        Some(offer.description.clone())
    };
    let images = if offer.images.len() == 0 {
        None
    } else {
        let mut urls: Vec<String> = Vec::new();
        let n = offer.images.len();
        let mut i: usize = 0;
        while i < n
            invariant
                i <= n,
                n == offer.images@.len(),
                urls@.len() == i as int,
                forall|j: int| 0 <= j < i as int ==> urls@[j] == offer.images@[j].image_url,
            decreases n - i,
        {
            urls.push(offer.images[i].image_url.clone());
            i = i + 1;
        }
        proof {
            assert(urls@ =~= offer.images@.map_values(|im: OfferImageResponse| im.image_url));
        }
        Some(urls)
    };
    CheckoutProductData { name: offer.name.clone(), description, images }
}

/// Assembles the complete checkout-session request for an offer.
///
/// `shop_id_canonical` is the offer's shop id in canonical form, as the
/// reconciliation metadata carries it; `buyer_user_id` is the
/// authenticated buyer, if the caller presented valid credentials.
/// Success and failure are decided by [`spec_assembly_error`] alone:
/// the function is pure, so a rejected request fails before any
/// processor call can be made from its result.
pub fn assemble_checkout_session(
    offer: &OfferResponse,
    shop: &ShopResponse,
    shop_id_canonical: String,
    shipping_rate: &Option<ShippingRateResponse>,
    buyer_user_id: Option<String>,
    success_url: String,
    cancel_url: String,
) -> (r: Result<CheckoutSession, PaymentError>)
    ensures
        r is Ok <==> spec_assembly_error(*offer, *shipping_rate, buyer_user_id) is None,
        r matches Err(e) ==> Some(e) == spec_assembly_error(
            *offer,
            *shipping_rate,
            buyer_user_id,
        ),
        r matches Ok(s) ==> spec_session_common_ok(
            s,
            *offer,
            shop_id_canonical,
            success_url,
            cancel_url,
        ),
        r matches Ok(s) ==> (offer.price matches Some(p) && (spec_price_type_from_i32(
            p.price_type,
        ) == PriceType::OneTime ==> spec_session_payment_ok(s, p, *shop, *shipping_rate)) && (
        spec_price_type_from_i32(p.price_type) == PriceType::Recurring ==> (p.recurring
            matches Some(rec) && spec_session_subscription_ok(
            s,
            p,
            rec,
            *shop,
            *offer,
            buyer_user_id,
        )))),
{
    let price = match &offer.price {
        Some(p) => p,
        None => {
            return Err(PaymentError::Internal);
        },
    };
    let product_data = build_product_data(offer);
    match price_type_from_i32(price.price_type) {
        PriceType::Unspecified => Err(PaymentError::Internal),
        PriceType::OneTime => {
            if price.recurring.is_some() {
                return Err(PaymentError::Internal);
            }
            let fee_amount = calculate_fee_amount(
                price.unit_amount,
                shop.platform_fee_percent,
                shop.minimum_platform_fee_cent,
            );
            let (shipping_option, shipping_address_countries) = match shipping_rate {
                Some(rate) => {
                    let rate_currency = match get_currency(rate.currency) {
                        Ok(c) => c,
                        Err(e) => {
                            return Err(e);
                        },
                    };
                    let countries = get_shipping_address_countries(
                        rate.all_countries,
                        &rate.specific_countries,
                    );
                    (
                        Some(
                            ShippingOption {
                                display_name: shipping_rate_key(),
                                fixed_amount: rate.amount as i64,
                                currency: rate_currency,
                            },
                        ),
                        Some(countries),
                    )
                },
                None => (None, None),
            };
            let currency = match get_currency(price.currency) {
                Ok(c) => c,
                Err(e) => {
                    return Err(e);
                },
            };
            Ok(
                CheckoutSession {
                    success_url,
                    cancel_url,
                    mode: CheckoutMode::Payment,
                    payment_intent_data: Some(
                        PaymentIntentData { application_fee_amount: fee_amount },
                    ),
                    subscription_data: None,
                    shipping_address_countries,
                    shipping_option,
                    metadata: CheckoutMetadata {
                        offer_id: offer.offer_id.clone(),
                        shop_id: shop_id_canonical,
                        user_id: None,
                    },
                    line_item: CheckoutLineItem {
                        currency,
                        unit_amount: price.unit_amount as i64,
                        product_data,
                        recurring: None,
                        quantity: 1,
                        adjustable_quantity_enabled: true,
                        adjustable_quantity_minimum: 1,
                    },
                },
            )
        },
        PriceType::Recurring => {
            let metadata_user_id = if offer_type_from_i32(offer.offer_type)
                == OfferType::Digital {
                match buyer_user_id {
                    Some(u) => Some(u),
                    None => {
                        return Err(PaymentError::Unauthenticated);
                    },
                }
            } else {
                None
            };
            let rec = match &price.recurring {
                Some(rr) => rr,
                None => {
                    return Err(PaymentError::Internal);
                },
            };
            let interval = match get_recurring_interval(
                recurring_interval_from_i32(rec.interval),
            ) {
                Ok(iv) => iv,
                Err(e) => {
                    return Err(e);
                },
            };
            let currency = match get_currency(price.currency) {
                Ok(c) => c,
                Err(e) => {
                    return Err(e);
                },
            };
            let fee_percent = calculate_fee_percent_hundredths(
                price.unit_amount,
                shop.platform_fee_percent,
                shop.minimum_platform_fee_cent,
            );
            Ok(
                CheckoutSession {
                    success_url,
                    cancel_url,
                    mode: CheckoutMode::Subscription,
                    payment_intent_data: None,
                    subscription_data: Some(
                        SubscriptionData {
                            application_fee_percent_hundredths: fee_percent,
                            trial_period_days: rec.trial_period_days,
                        },
                    ),
                    shipping_address_countries: None,
                    shipping_option: None,
                    metadata: CheckoutMetadata {
                        offer_id: offer.offer_id.clone(),
                        shop_id: shop_id_canonical,
                        user_id: metadata_user_id,
                    },
                    line_item: CheckoutLineItem {
                        currency,
                        unit_amount: price.unit_amount as i64,
                        product_data,
                        recurring: Some(
                            CheckoutRecurring {
                                interval,
                                interval_count: rec.interval_count as u64,
                            },
                        ),
                        quantity: 1,
                        adjustable_quantity_enabled: true,
                        adjustable_quantity_minimum: 1,
                    },
                },
            )
        },
    }
}

} // verus!
