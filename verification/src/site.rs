//! Per-marketplace structure: what a platform looks like, where its
//! data sits, how it paginates, and which anti-bot measures it runs.
//! The orchestrator selects a site strategy through these descriptions.

use vstd::prelude::*;
use vstd::string::*;
use crate::text::{chars_vec, contains_at, contains_spec, str_eq};

verus! {

#[derive(Debug)]
pub struct PlatformInfo {
    pub name: String,
    pub domain: String,
    pub country: String,
    pub detected_by: Vec<String>,
}

/// Markers that identify a page type; confidence is in percent.
#[derive(Debug)]
pub struct PageSignature {
    pub url_patterns: Vec<String>,
    pub required_elements: Vec<String>,
    pub confidence_markers: Vec<(String, u32)>,
}

#[derive(Debug)]
pub struct PageSignatures {
    pub search_results: PageSignature,
    pub product_detail: PageSignature,
    pub category_list: Option<PageSignature>,
}

#[derive(Debug)]
pub struct JavaScriptConfig {
    pub requires_javascript: bool,
    pub main_data_variable: String,
    pub data_location: String,
    pub parse_method: String,
    pub react_based: Option<bool>,
}

#[derive(Debug)]
pub struct JavaScriptExtractors {
    pub product_data_path: String,
    pub price_module: String,
    pub shipping_module: String,
    pub seller_module: String,
}

#[derive(Debug)]
pub struct PriceSelectors {
    pub current_price: Vec<String>,
    pub original_price: Vec<String>,
    pub discount_rate: Vec<String>,
    pub currency_pattern: String,
    pub priority_order: Option<Vec<String>>,
}

#[derive(Debug)]
pub struct ShippingSelectors {
    pub shipping_fee: Vec<String>,
    pub delivery_time: Vec<String>,
    pub shipping_method: Vec<String>,
    pub free_shipping_indicator: Vec<String>,
    pub special_delivery: Option<Vec<String>>,
}

#[derive(Debug)]
pub struct SellerSelectors {
    pub seller_name: Vec<String>,
    pub seller_rating: Vec<String>,
    pub seller_location: Vec<String>,
    pub fulfilled_by: Vec<String>,
    pub seller_id: Option<Vec<String>>,
}

#[derive(Debug)]
pub struct ProductExtractor {
    pub price_selectors: PriceSelectors,
    pub shipping_selectors: ShippingSelectors,
    pub seller_selectors: SellerSelectors,
    pub additional_selectors: Option<Vec<(String, Vec<String>)>>,
}

#[derive(Debug)]
pub struct JavaScriptListConfig {
    pub data_location: String,
    pub items_key: String,
}

#[derive(Debug)]
pub struct ListItemExtractor {
    pub item_container: Vec<String>,
    pub item_link: Vec<String>,
    pub item_price: Vec<String>,
    pub item_title: Vec<String>,
    pub ad_badge_selector: Option<Vec<String>>,
    pub javascript_list: Option<JavaScriptListConfig>,
}

#[derive(Debug)]
pub struct DataExtractors {
    pub product: ProductExtractor,
    pub list_item: ListItemExtractor,
    pub javascript_extractors: Option<JavaScriptExtractors>,
}

#[derive(Debug)]
pub struct ScrollConfig {
    pub trigger_percentage: String,
    pub lazy_loading: bool,
    pub max_scroll_attempts: Option<u32>,
}

#[derive(Debug)]
pub struct PaginationPattern {
    pub next_button: Vec<String>,
    pub page_param: String,
    pub items_per_page: Option<usize>,
    pub prev_button: Option<Vec<String>>,
    pub page_numbers: Option<Vec<String>>,
    pub max_pages: Option<u32>,
}

#[derive(Debug)]
pub struct NavigationPatterns {
    pub pagination: PaginationPattern,
    pub infinite_scroll: bool,
    pub load_more_button: Option<String>,
    pub ajax_endpoints: Vec<String>,
    pub scroll_config: Option<ScrollConfig>,
}

#[derive(Debug)]
pub struct AntiBotIndicators {
    pub cloudflare_detected: bool,
    pub captcha_present: bool,
    pub requires_login: bool,
    pub rate_limit_indicators: Vec<String>,
    pub captcha_types: Option<Vec<String>>,
    pub rate_limit: Option<String>,
    pub requires_javascript: Option<bool>,
    pub fingerprinting: Option<String>,
    pub aws_waf: Option<bool>,
    pub geographic_restriction: Option<String>,
    pub user_agent_check: Option<bool>,
}

#[derive(Debug)]
pub struct TechnicalNotes {
    pub rendering: String,
    pub data_loading: String,
    pub primary_data_source: String,
    pub selector_stability: String,
}

#[derive(Debug)]
pub struct MarketplaceStructure {
    pub platform: PlatformInfo,
    pub page_signatures: PageSignatures,
    pub data_extractors: DataExtractors,
    pub navigation_patterns: NavigationPatterns,
    pub anti_bot_indicators: AntiBotIndicators,
    pub javascript_config: Option<JavaScriptConfig>,
    pub technical_notes: Option<TechnicalNotes>,
}

impl MarketplaceStructure {
    /// Whether the site requires JavaScript execution: either its
    /// script configuration or its anti-bot indicators say so.
    pub fn requires_javascript(&self) -> (r: bool)
        ensures
            r == ((match self.javascript_config {
                Some(ref c) => c.requires_javascript,
                None => false,
            }) || (match self.anti_bot_indicators.requires_javascript {
                Some(b) => b,
                None => false,
            })),
    {
        let from_config = match &self.javascript_config {
            Some(c) => c.requires_javascript,
            None => false,
        };
        let from_antibot = match self.anti_bot_indicators.requires_javascript {
            Some(b) => b,
            None => false,
        };
        from_config || from_antibot
    }

    /// Whether the platform needs special handling: known hard
    /// platforms, or detected protections.
    pub fn needs_special_handling(&self) -> (r: bool)
        ensures
            r == (if self.platform.name@ == "aliexpress"@ {
                true
            } else if self.platform.name@ == "coupang"@ {
                self.anti_bot_indicators.cloudflare_detected
            } else if self.platform.name@ == "amazon"@ {
                match self.anti_bot_indicators.aws_waf {
                    Some(b) => b,
                    None => false,
                }
            } else {
                false
            }),
    {
        if str_eq(self.platform.name.as_str(), "aliexpress") {
            true
        } else if str_eq(self.platform.name.as_str(), "coupang") {
            self.anti_bot_indicators.cloudflare_detected
        } else if str_eq(self.platform.name.as_str(), "amazon") {
            match self.anti_bot_indicators.aws_waf {
                Some(b) => b,
                None => false,
            }
        } else {
            proof {
                reveal_strlit("aliexpress");
                reveal_strlit("coupang");
                reveal_strlit("amazon");
            }
            false
        }
    }

    /// The selector tried first for the price: the head of the
    /// priority order when one is given, else the first current-price
    /// selector.
    pub fn get_price_selector(&self) -> (r: Option<&String>)
        ensures
            match self.data_extractors.product.price_selectors.priority_order {
                Some(ref p) => if p@.len() > 0 {
                    r matches Some(s) && s@ == p@[0]@
                } else {
                    r is None
                },
                None => {
                    let cur = self.data_extractors.product.price_selectors.current_price;
                    if cur@.len() > 0 {
                        r matches Some(s) && s@ == cur@[0]@
                    } else {
                        r is None
                    }
                },
            },
    {
        match &self.data_extractors.product.price_selectors.priority_order {
            Some(p) => {
                if p.len() > 0 {
                    Some(&p[0])
                } else {
                    None
                }
            },
            None => {
                let cur = &self.data_extractors.product.price_selectors.current_price;
                if cur.len() > 0 {
                    Some(&cur[0])
                } else {
                    None
                }
            },
        }
    }
}

impl PlatformInfo {
    /// Detect the platform from an address by its domain markers.
    pub fn detect_from_url(url: &str) -> (r: Option<String>)
        ensures
            contains_spec(url@, "amazon."@) ==> (r matches Some(s) && s@ == "amazon"@),
            (!contains_spec(url@, "amazon."@) && contains_spec(url@, "coupang.com"@)) ==> (
            r matches Some(s) && s@ == "coupang"@),
            (!contains_spec(url@, "amazon."@) && !contains_spec(url@, "coupang.com"@)
                && contains_spec(url@, "aliexpress."@)) ==> (r matches Some(s) && s@
                == "aliexpress"@),
            (!contains_spec(url@, "amazon."@) && !contains_spec(url@, "coupang.com"@)
                && !contains_spec(url@, "aliexpress."@)) ==> r is None,
    {
        let v = chars_vec(url);
        let n = v.len();
        proof {
            assert(v@.subrange(0, n as int) =~= url@);
        }
        if contains_at(&v, 0, n, &chars_vec("amazon.")) {
            Some(String::from_str("amazon"))
        } else if contains_at(&v, 0, n, &chars_vec("coupang.com")) {
            Some(String::from_str("coupang"))
        } else if contains_at(&v, 0, n, &chars_vec("aliexpress.")) {
            Some(String::from_str("aliexpress"))
        } else {
            None
        }
    }
}

} // verus!
