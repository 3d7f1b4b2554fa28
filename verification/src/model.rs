//! Data model of the payment service.
//!
//! The commerce collaborator hands the service shops, offers, prices and
//! shipping rates; the service keeps one persisted record of its own, the
//! link between a shop and its processor sub-account.  Enumerated wire
//! fields arrive as plain integer codes and are parsed into closed sum
//! types with explicit `Unspecified` variants, which the boundary rejects
//! rather than silently defaults.

use vstd::prelude::*;

verus! {

/// Error taxonomy of the service.  Ownership mismatches are deliberately
/// indistinguishable from absence (`NotFound`), and no internal detail
/// crosses the trust boundary: callers see the variant alone, except for
/// the name of a malformed input field.
#[derive(Debug, Clone)]
pub enum PaymentError {
    /// Missing or invalid credentials, or an anonymous attempt to buy a
    /// digital subscription.
    Unauthenticated,
    /// Missing shop, offer or account link — or a shop owned by someone
    /// else, indistinguishable by design.
    NotFound,
    /// A malformed identifier; carries the name of the offending field.
    InvalidArgument { field: String },
    /// A duplicate account link; translated to an idempotent success at
    /// the account-linking level and surfaced only from the store itself.
    AlreadyExists,
    /// A referential-integrity violation in the link store.
    FailedPrecondition,
    /// Any unexpected processor, transport or input failure.
    Internal,
}

/// The closed set of supported currencies.
#[derive(Clone, Copy, Debug, PartialEq, Eq, Structural)]
pub enum Currency {
    Unspecified,
    Eur,
}

/// Whether a price is charged once or on a schedule.
#[derive(Clone, Copy, Debug, PartialEq, Eq, Structural)]
pub enum PriceType {
    Unspecified,
    OneTime,
    Recurring,
}

/// The billing interval of a recurring price, as it arrives on the wire.
#[derive(Clone, Copy, Debug, PartialEq, Eq, Structural)]
pub enum RecurringInterval {
    Unspecified,
    Day,
    Week,
    Month,
    Year,
}

/// A billing interval that has passed validation: `Unspecified` is gone.
#[derive(Clone, Copy, Debug, PartialEq, Eq, Structural)]
pub enum BillingInterval {
    Day,
    Week,
    Month,
    Year,
}

/// What kind of good an offer sells.
#[derive(Clone, Copy, Debug, PartialEq, Eq, Structural)]
pub enum OfferType {
    Unspecified,
    Physical,
    Digital,
    Service,
}

pub open spec fn spec_currency_from_i32(code: i32) -> Currency {
    if code == 1 {
        Currency::Eur
    } else {
        Currency::Unspecified
    }
}

/// Parses a wire currency code; unknown codes fall back to `Unspecified`.
pub fn currency_from_i32(code: i32) -> (r: Currency)
    ensures
        r == spec_currency_from_i32(code),
{
    if code == 1 {
        Currency::Eur
    } else {
        Currency::Unspecified
    }
}

pub open spec fn spec_price_type_from_i32(code: i32) -> PriceType {
    if code == 1 {
        PriceType::OneTime
    } else if code == 2 {
        PriceType::Recurring
    } else {
        PriceType::Unspecified
    }
}

/// Parses a wire price-type code; unknown codes fall back to `Unspecified`.
pub fn price_type_from_i32(code: i32) -> (r: PriceType)
    ensures
        r == spec_price_type_from_i32(code),
{
    if code == 1 {
        PriceType::OneTime
    } else if code == 2 {
        PriceType::Recurring
    } else {
        PriceType::Unspecified
    }
}

pub open spec fn spec_recurring_interval_from_i32(code: i32) -> RecurringInterval {
    if code == 1 {
        RecurringInterval::Day
    } else if code == 2 {
        RecurringInterval::Week
    } else if code == 3 {
        RecurringInterval::Month
    } else if code == 4 {
        RecurringInterval::Year
    } else {
        RecurringInterval::Unspecified
    }
}

/// Parses a wire interval code; unknown codes fall back to `Unspecified`.
pub fn recurring_interval_from_i32(code: i32) -> (r: RecurringInterval)
    ensures
        r == spec_recurring_interval_from_i32(code),
{
    if code == 1 {
        RecurringInterval::Day
    } else if code == 2 {
        RecurringInterval::Week
    } else if code == 3 {
        RecurringInterval::Month
    } else if code == 4 {
        RecurringInterval::Year
    } else {
        RecurringInterval::Unspecified
    }
}

pub open spec fn spec_offer_type_from_i32(code: i32) -> OfferType {
    if code == 1 {
        OfferType::Physical
    } else if code == 2 {
        OfferType::Digital
    } else if code == 3 {
        OfferType::Service
    } else {
        OfferType::Unspecified
    }
}

/// Parses a wire offer-type code; unknown codes fall back to `Unspecified`.
pub fn offer_type_from_i32(code: i32) -> (r: OfferType)
    ensures
        r == spec_offer_type_from_i32(code),
{
    if code == 1 {
        OfferType::Physical
    } else if code == 2 {
        OfferType::Digital
    } else if code == 3 {
        OfferType::Service
    } else {
        OfferType::Unspecified
    }
}

pub open spec fn spec_get_currency(code: i32) -> Result<Currency, PaymentError> {
    if code == 1 {
        Ok(Currency::Eur)
    } else {
        Err(PaymentError::Internal)
    }
}

/// Validates a wire currency code for use in a checkout session: the one
/// supported currency passes, everything else — the unspecified value
/// included — is a fatal input error.
pub fn get_currency(code: i32) -> (r: Result<Currency, PaymentError>)
    ensures
        r == spec_get_currency(code),
{
    if code == 1 {
        Ok(Currency::Eur)
    } else {
        Err(PaymentError::Internal)
    }
}

pub open spec fn spec_get_recurring_interval(interval: RecurringInterval) -> Result<
    BillingInterval,
    PaymentError,
> {
    match interval {
        RecurringInterval::Unspecified => Err(PaymentError::Internal),
        RecurringInterval::Day => Ok(BillingInterval::Day),
        RecurringInterval::Week => Ok(BillingInterval::Week),
        RecurringInterval::Month => Ok(BillingInterval::Month),
        RecurringInterval::Year => Ok(BillingInterval::Year),
    }
}

/// Validates a parsed billing interval: the unspecified value is a fatal
/// input error.
pub fn get_recurring_interval(interval: RecurringInterval) -> (r: Result<
    BillingInterval,
    PaymentError,
>)
    ensures
        r == spec_get_recurring_interval(interval),
{
    match interval {
        RecurringInterval::Unspecified => Err(PaymentError::Internal),
        RecurringInterval::Day => Ok(BillingInterval::Day),
        RecurringInterval::Week => Ok(BillingInterval::Week),
        RecurringInterval::Month => Ok(BillingInterval::Month),
        RecurringInterval::Year => Ok(BillingInterval::Year),
    }
}

/// The recurring terms of a price: interval code, interval count and an
/// optional trial period in days.
#[derive(Debug, Clone)]
pub struct Recurring {
    pub interval: i32,
    pub interval_count: u32,
    pub trial_period_days: Option<u32>,
}

/// A price in the minor currency unit.  `recurring` is present iff
/// `price_type` parses to `Recurring`; the checkout assembler rejects a
/// price that breaks that invariant.
#[derive(Debug, Clone)]
pub struct Price {
    pub currency: i32,
    pub price_type: i32,
    pub billing_scheme: i32,
    pub unit_amount: u32,
    pub recurring: Option<Recurring>,
}

/// One image attached to an offer.
#[derive(Debug, Clone)]
pub struct OfferImageResponse {
    pub offer_image_id: String,
    pub image_url: String,
    pub ordering: i64,
}

/// A purchasable listing, as the commerce collaborator hands it over.
/// `price` may be absent (the offer is not yet purchasable), which is a
/// fatal precondition for checkout.
#[derive(Debug, Clone)]
pub struct OfferResponse {
    pub offer_id: String,
    pub shop_id: String,
    pub user_id: String,
    pub name: String,
    pub description: String,
    pub offer_type: i32,
    pub images: Vec<OfferImageResponse>,
    pub price: Option<Price>,
}

/// A seller's storefront, with the two inputs to fee computation.
#[derive(Debug, Clone)]
pub struct ShopResponse {
    pub shop_id: String,
    pub user_id: String,
    pub name: String,
    pub platform_fee_percent: u32,
    pub minimum_platform_fee_cent: u32,
}

/// The shipping rate configured for an offer: an amount, its currency,
/// and either "all countries" or an explicit country allow-list of wire
/// codes.
#[derive(Debug, Clone)]
pub struct ShippingRateResponse {
    pub shipping_rate_id: String,
    pub offer_id: String,
    pub amount: u32,
    pub currency: i32,
    pub all_countries: bool,
    pub specific_countries: Vec<i32>,
}

/// The persisted link between a shop and its processor sub-account.  One
/// link per shop; created once and never updated in place.  Timestamps
/// are seconds since the epoch, as the store reports them.
#[derive(Debug, Clone)]
pub struct StripeAccount {
    pub stripe_account_id: String,
    pub shop_id: String,
    pub user_id: String,
    pub created_at: i64,
    pub updated_at: i64,
}

/// The columns of the link table, and the table itself.
#[derive(Debug, Clone, Copy, PartialEq, Eq, Structural)]
pub enum StripeAccountIden {
    Table,
    StripeAccountId,
    ShopId,
    UserId,
    CreatedAt,
    UpdatedAt,
}

impl StripeAccountIden {
    /// The identifier each variant names in the store's schema.
    pub fn unquoted(&self) -> (r: &'static str)
        ensures
            *self == StripeAccountIden::Table ==> r@ == "stripe_accounts"@,
            *self == StripeAccountIden::StripeAccountId ==> r@ == "stripe_account_id"@,
            *self == StripeAccountIden::ShopId ==> r@ == "shop_id"@,
            *self == StripeAccountIden::UserId ==> r@ == "user_id"@,
            *self == StripeAccountIden::CreatedAt ==> r@ == "created_at"@,
            *self == StripeAccountIden::UpdatedAt ==> r@ == "updated_at"@,
    {
        match self {
            StripeAccountIden::Table => "stripe_accounts",
            StripeAccountIden::StripeAccountId => "stripe_account_id",
            StripeAccountIden::ShopId => "shop_id",
            StripeAccountIden::UserId => "user_id",
            StripeAccountIden::CreatedAt => "created_at",
            StripeAccountIden::UpdatedAt => "updated_at",
        }
    }
}

} // verus!
