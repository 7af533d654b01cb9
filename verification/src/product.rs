//! The product record the crawler collects.  Prices are integer
//! amounts in the site's currency unit; timestamps are Unix
//! milliseconds.  Identifier generation and the clock are outside
//! services reached through trusted wrappers.

use vstd::prelude::*;
use vstd::string::*;
use crate::text::str_eq;

verus! {

/// Relies on uuid::Uuid::new_v4 and its Display form: a fresh random
/// identifier, rendered in the 36-character hyphenated format.  Two
/// calls may differ; nothing further is promised of the value.
#[verifier::external_body]
pub fn fresh_id() -> (r: String)
    ensures
        r@.len() == 36,
{
    uuid::Uuid::new_v4().to_string()
}

/// Relies on chrono::Utc::now: the current wall-clock time in Unix
/// milliseconds.  The value depends on the clock; nothing is promised
/// of it.
#[verifier::external_body]
pub fn now_millis() -> (r: i64) {
    chrono::Utc::now().timestamp_millis()
}

#[derive(Debug)]
pub struct Product {
    pub id: Option<String>,
    pub product_name: String,
    pub current_price: Option<u64>,
    pub original_price: Option<u64>,
    /// Rounded discount percentage; negative when the price rose.
    pub discount_rate: Option<i64>,
    pub site: String,
    pub category: String,
    pub url: String,
    pub image_url: String,
    pub coupon_code: Option<String>,
    pub valid_until_ms: Option<i64>,
    pub additional_benefits: Vec<String>,
    pub is_rocket_delivery: bool,
    pub created_at_ms: i64,
    pub updated_at_ms: i64,
}

/// Prices the discount computation accepts (keeps the percentage well
/// inside the integer range).
pub open spec fn price_in_range(p: u64) -> bool {
    p < 4294967296
}

/// The rounded discount percentage of `current` against `original`,
/// rounding half away from zero.
pub open spec fn discount_rate_spec(current: u64, original: u64) -> int {
    if current <= original {
        (100 * ((original - current) as int) + (original as int) / 2) / (original as int)
    } else {
        -((100 * ((current - original) as int) + (original as int) / 2) / (original as int))
    }
}

impl Product {
    /// The empty record with the documented placeholder fields; the
    /// timestamps are taken from the clock.
    pub fn empty() -> (r: Self)
        ensures
            r.id is None,
            r.product_name@ == "Unknown Product"@,
            r.current_price is None,
            r.original_price is None,
            r.discount_rate is None,
            r.site@ == "unknown"@,
            r.category@ == "미분류"@,
            r.url@.len() == 0,
            r.image_url@.len() == 0,
            r.coupon_code is None,
            r.valid_until_ms is None,
            r.additional_benefits@.len() == 0,
            r.is_rocket_delivery == false,
            r.created_at_ms == r.updated_at_ms,
    {
        let now = now_millis();
        Product {
            id: None,
            product_name: String::from_str("Unknown Product"),
            current_price: None,
            original_price: None,
            discount_rate: None,
            site: String::from_str("unknown"),
            category: String::from_str("미분류"),
            url: String::new(),
            image_url: String::new(),
            coupon_code: None,
            valid_until_ms: None,
            additional_benefits: Vec::new(),
            is_rocket_delivery: false,
            created_at_ms: now,
            updated_at_ms: now,
        }
    }

    /// A new record: a fresh identifier, the given name, address and
    /// site, placeholders elsewhere, both timestamps from one clock
    /// reading.
    pub fn new(name: String, url: String, site: String) -> (r: Self)
        ensures
            r.id matches Some(i) && i@.len() == 36,
            r.product_name@ == name@,
            r.url@ == url@,
            r.site@ == site@,
            r.current_price is None,
            r.original_price is None,
            r.discount_rate is None,
            r.category@ == "미분류"@,
            r.coupon_code is None,
            r.additional_benefits@.len() == 0,
            r.is_rocket_delivery == false,
            r.created_at_ms == r.updated_at_ms,
    {
        let mut p = Self::empty();
        p.id = Some(fresh_id());
        p.product_name = name;
        p.url = url;
        p.site = site;
        p
    }

    /// Recompute the rounded discount percentage from the two prices;
    /// without both prices, or with a zero original, nothing changes.
    pub fn calculate_discount_rate(&mut self)
        requires
            old(self).current_price matches Some(c) ==> price_in_range(c),
            old(self).original_price matches Some(o) ==> price_in_range(o),
        ensures
            final(self).discount_rate == (match (
                old(self).current_price,
                old(self).original_price,
            ) {
                (Some(c), Some(o)) => if o > 0 {
                    Some(discount_rate_spec(c, o) as i64)
                } else {
                    old(self).discount_rate
                },
                _ => old(self).discount_rate,
            }),
            final(self).current_price == old(self).current_price,
            final(self).original_price == old(self).original_price,
            final(self).product_name == old(self).product_name,
            final(self).updated_at_ms == old(self).updated_at_ms,
            final(self).additional_benefits == old(self).additional_benefits,
            final(self).site == old(self).site,
            final(self).created_at_ms == old(self).created_at_ms,
            final(self).id == old(self).id,
            final(self).url == old(self).url,
            final(self).image_url == old(self).image_url,
            final(self).is_rocket_delivery == old(self).is_rocket_delivery,
    {
        match (self.current_price, self.original_price) {
            (Some(current), Some(original)) => {
                if original > 0 {
                    if current <= original {
                        let diff = original - current;
                        let rate = (100 * diff + original / 2) / original;
                        self.discount_rate = Some(rate as i64);
                    } else {
                        let diff = current - original;
                        let rate = (100 * diff + original / 2) / original;
                        self.discount_rate = Some(-(rate as i64));
                    }
                }
            },
            _ => {},
        }
    }

    /// Record a new price (and optionally a new original price),
    /// recompute the discount, and stamp the update time.
    pub fn update_price(&mut self, new_price: u64, original_price: Option<u64>, now_ms: i64)
        requires
            price_in_range(new_price),
            original_price matches Some(o) ==> price_in_range(o),
            old(self).original_price matches Some(o) ==> price_in_range(o),
        ensures
            final(self).current_price == Some(new_price),
            final(self).original_price == (match original_price {
                Some(o) => Some(o),
                None => old(self).original_price,
            }),
            final(self).updated_at_ms == now_ms,
            final(self).discount_rate == (match (final(self).original_price) {
                Some(o) => if o > 0 {
                    Some(discount_rate_spec(new_price, o) as i64)
                } else {
                    old(self).discount_rate
                },
                None => old(self).discount_rate,
            }),
            final(self).product_name == old(self).product_name,
            final(self).site == old(self).site,
            final(self).created_at_ms == old(self).created_at_ms,
    {
        self.current_price = Some(new_price);
        match original_price {
            Some(o) => {
                self.original_price = Some(o);
            },
            None => {},
        }
        self.calculate_discount_rate();
        self.updated_at_ms = now_ms;
    }

    pub fn set_rocket_delivery(&mut self, is_rocket: bool)
        ensures
            *final(self) == (Product { is_rocket_delivery: is_rocket, ..*old(self) }),
    {
        self.is_rocket_delivery = is_rocket;
    }

    /// Add a benefit unless an equal one is already recorded.
    pub fn add_benefit(&mut self, benefit: String)
        ensures
            (exists|i: int|
                0 <= i < old(self).additional_benefits@.len() && (#[trigger] old(
                    self,
                ).additional_benefits@[i])@ == benefit@) ==> final(self).additional_benefits@
                == old(self).additional_benefits@,
            (forall|i: int|
                0 <= i < old(self).additional_benefits@.len() ==> (#[trigger] old(
                    self,
                ).additional_benefits@[i])@ != benefit@) ==> final(self).additional_benefits@
                == old(self).additional_benefits@.push(benefit),
            final(self).product_name == old(self).product_name,
            final(self).current_price == old(self).current_price,
            final(self).is_rocket_delivery == old(self).is_rocket_delivery,
    {
        let mut i: usize = 0;
        while i < self.additional_benefits.len()
            invariant
                self == old(self),
                0 <= i <= self.additional_benefits@.len(),
                forall|j: int|
                    0 <= j < i ==> (#[trigger] self.additional_benefits@[j])@ != benefit@,
            decreases self.additional_benefits@.len() - i,
        {
            if str_eq(self.additional_benefits[i].as_str(), benefit.as_str()) {
                return ;
            }
            i = i + 1;
        }
        self.additional_benefits.push(benefit);
    }
}

/// The fields needed to create a record.
#[derive(Debug)]
pub struct CreateProduct {
    pub product_name: String,
    pub current_price: Option<u64>,
    pub original_price: Option<u64>,
    pub site: String,
    pub category: String,
    pub url: String,
    pub image_url: String,
    pub coupon_code: Option<String>,
    pub valid_until_ms: Option<i64>,
    pub additional_benefits: Vec<String>,
    pub is_rocket_delivery: bool,
}

/// A partial update; absent fields stay as they are.
#[derive(Debug)]
pub struct UpdateProduct {
    pub product_name: Option<String>,
    pub current_price: Option<u64>,
    pub original_price: Option<u64>,
    pub site: Option<String>,
    pub category: Option<String>,
    pub url: Option<String>,
    pub image_url: Option<String>,
    pub coupon_code: Option<String>,
    pub valid_until_ms: Option<i64>,
    pub additional_benefits: Option<Vec<String>>,
    pub is_rocket_delivery: Option<bool>,
}

/// One recorded price point of a product.
#[derive(Debug)]
pub struct PriceHistory {
    pub id: String,
    pub product_id: String,
    pub price: u64,
    pub original_price: Option<u64>,
    pub discount_rate: Option<i64>,
    pub is_lowest: Option<bool>,
    pub recorded_at_ms: i64,
}

/// The fields needed to record a price point.
#[derive(Debug)]
pub struct CreatePriceHistory {
    pub product_id: String,
    pub price: u64,
    pub original_price: Option<u64>,
}

} // verus!
