//! Per-site HTML handling for the Coupang marketplace: classifying a
//! Coupang address by page type, and extracting product data from page
//! HTML.  CSS selection itself is done by an HTML parsing library
//! behind trusted wrappers; which selectors are tried, in which order,
//! and how their results are combined is verified here.

use vstd::prelude::*;
use vstd::string::*;
use crate::errors::ErrorS;
use crate::product::Product;
use crate::text::{chars_vec, contains_at, contains_spec, is_digit, digits_val, remove_all,
    remove_all_chars, seg_eq, starts_with_at, starts_with_spec, trim_spec, trim_string};

verus! {

/// The page types a Coupang address can name.
#[derive(Debug, Clone, Copy, PartialEq, Eq, Hash, Structural)]
pub enum CoupangPageType {
    MainPage,
    ProductDetail,
    ProductOptions,
    SearchResults,
    Category,
    Brand,
    Campaign,
    GoldBox,
    EventPages,
    CouponCenter,
    RocketFresh,
    RocketGlobal,
    RocketLuxury,
    CoupangBiz,
    MyCoupang,
    Login,
    MobileMain,
    MobileSearch,
    ProductApi,
    SearchSuggestApi,
    Unknown,
}

/// The text of the first element matching `sel` in `html` (all its
/// text nodes concatenated), or `None` when the selector is invalid or
/// matches nothing.
pub uninterp spec fn first_text_of(html: Seq<char>, sel: Seq<char>) -> Option<Seq<char>>;

/// Relies on scraper: Html::parse_document, Selector::parse, select
/// and ElementRef::text; the result depends on the two texts alone,
/// named `first_text_of`.
#[verifier::external_body]
fn select_first_text(html: &str, sel: &str) -> (r: Option<String>)
    ensures
        match (r, first_text_of(html@, sel@)) {
            (Some(x), Some(y)) => x@ == y,
            (None, None) => true,
            _ => false,
        },
{
    let document = scraper::Html::parse_document(html);
    let selector = scraper::Selector::parse(sel).ok()?;
    document.select(&selector).next().map(|el| el.text().collect::<String>())
}

/// The value of attribute `attr` on the first element matching `sel`,
/// or `None` when the selector is invalid, matches nothing, or the
/// first match lacks the attribute.
pub uninterp spec fn first_attr_of(html: Seq<char>, sel: Seq<char>, attr: Seq<char>) -> Option<
    Seq<char>,
>;

/// Relies on scraper: Selector::parse, select and Element::attr; the
/// result depends on the three texts alone, named `first_attr_of`.
#[verifier::external_body]
fn select_first_attr(html: &str, sel: &str, attr: &str) -> (r: Option<String>)
    ensures
        match (r, first_attr_of(html@, sel@, attr@)) {
            (Some(x), Some(y)) => x@ == y,
            (None, None) => true,
            _ => false,
        },
{
    let document = scraper::Html::parse_document(html);
    let selector = scraper::Selector::parse(sel).ok()?;
    let element = document.select(&selector).next()?;
    element.value().attr(attr).map(|v| v.to_string())
}

/// For each element matching `sel`, the `href` of its first descendant
/// anchor, in document order; elements without an anchored link
/// contribute nothing.
pub uninterp spec fn hrefs_of(html: Seq<char>, sel: Seq<char>) -> Seq<Seq<char>>;

/// Relies on scraper: select over the container selector, then the
/// first `a` descendant's `href` of each match; the result depends on
/// the two texts alone, named `hrefs_of`.
#[verifier::external_body]
fn select_hrefs(html: &str, sel: &str) -> (r: Vec<String>)
    ensures
        r@.map_values(|s: String| s@) == hrefs_of(html@, sel@),
{
    let document = scraper::Html::parse_document(html);
    let (Ok(selector), Ok(link)) = (scraper::Selector::parse(sel), scraper::Selector::parse("a"))
    else {
        return Vec::new();
    };
    document
        .select(&selector)
        .filter_map(|el| el.select(&link).next())
        .filter_map(|a| a.value().attr("href").map(|h| h.to_string()))
        .collect()
}

/// For each element matching `sel`, the values of the two attributes,
/// in document order.
pub uninterp spec fn attr_pairs_of(
    html: Seq<char>,
    sel: Seq<char>,
    attr_a: Seq<char>,
    attr_b: Seq<char>,
) -> Seq<(Option<Seq<char>>, Option<Seq<char>>)>;

/// Relies on scraper: select plus Element::attr per match; the result
/// depends on the four texts alone, named `attr_pairs_of`.
#[verifier::external_body]
fn select_attr_pairs(html: &str, sel: &str, attr_a: &str, attr_b: &str) -> (r: Vec<
    (Option<String>, Option<String>),
>)
    ensures
        r@.map_values(
            |p: (Option<String>, Option<String>)|
                (
                    match p.0 {
                        Some(s) => Some(s@),
                        None => None,
                    },
                    match p.1 {
                        Some(s) => Some(s@),
                        None => None,
                    },
                ),
        ) == attr_pairs_of(html@, sel@, attr_a@, attr_b@),
{
    let document = scraper::Html::parse_document(html);
    let Ok(selector) = scraper::Selector::parse(sel) else {
        return Vec::new();
    };
    document
        .select(&selector)
        .map(|el| (el.value().attr(attr_a).map(|v| v.to_string()),
                el.value().attr(attr_b).map(|v| v.to_string())))
        .collect()
}

/// How many elements match `sel` in `html`.
pub uninterp spec fn match_count_of(html: Seq<char>, sel: Seq<char>) -> int;

/// Relies on scraper: the number of matches of a selector, named
/// `match_count_of`.
#[verifier::external_body]
fn count_matches(html: &str, sel: &str) -> (r: usize)
    ensures
        r as int == match_count_of(html@, sel@),
{
    let document = scraper::Html::parse_document(html);
    match scraper::Selector::parse(sel) {
        Ok(selector) => document.select(&selector).count(),
        Err(_) => 0,
    }
}

/// The digit characters of `s`, in order.
pub open spec fn digits_of(s: Seq<char>) -> Seq<char> {
    s.filter(|c: char| is_digit(c))
}

/// A digit string read as an amount, saturating at the integer limit.
pub open spec fn sat_price(v: int) -> u64 {
    if v <= u64::MAX {
        v as u64
    } else {
        u64::MAX
    }
}

/// The price taken from the text under one selector: the digits of the
/// first match's text, when there are any.
pub open spec fn price_from(html: Seq<char>, sel: Seq<char>) -> Option<u64> {
    match first_text_of(html, sel) {
        Some(t) => if digits_of(t).len() > 0 {
            Some(sat_price(digits_val(digits_of(t))))
        } else {
            None
        },
        None => None,
    }
}

/// The product name: the trimmed text of the first name selector that
/// matches.
pub open spec fn coupang_name_spec(html: Seq<char>) -> Option<Seq<char>> {
    if first_text_of(html, ".prod-buy-header__title"@) is Some {
        Some(trim_spec(first_text_of(html, ".prod-buy-header__title"@)->0))
    } else if first_text_of(html, ".name"@) is Some {
        Some(trim_spec(first_text_of(html, ".name"@)->0))
    } else if first_text_of(html, ".search-product-title"@) is Some {
        Some(trim_spec(first_text_of(html, ".search-product-title"@)->0))
    } else if first_text_of(html, ".baby-product-title"@) is Some {
        Some(trim_spec(first_text_of(html, ".baby-product-title"@)->0))
    } else {
        None
    }
}

/// The price: the first price selector whose text holds digits.
pub open spec fn coupang_price_spec(html: Seq<char>) -> Option<u64> {
    if price_from(html, ".total-price strong"@) is Some {
        price_from(html, ".total-price strong"@)
    } else if price_from(html, ".price-value"@) is Some {
        price_from(html, ".price-value"@)
    } else if price_from(html, ".sale-price"@) is Some {
        price_from(html, ".sale-price"@)
    } else {
        price_from(html, ".price .total"@)
    }
}

/// The image address on the first match of one image selector: the
/// four known source attributes tried in order.
pub open spec fn image_from(html: Seq<char>, sel: Seq<char>) -> Option<Seq<char>> {
    if first_attr_of(html, sel, "data-img-src"@) is Some {
        first_attr_of(html, sel, "data-img-src"@)
    } else if first_attr_of(html, sel, "data-original-src"@) is Some {
        first_attr_of(html, sel, "data-original-src"@)
    } else if first_attr_of(html, sel, "data-src"@) is Some {
        first_attr_of(html, sel, "data-src"@)
    } else {
        first_attr_of(html, sel, "src"@)
    }
}

/// The image: the first image selector that yields a source.
pub open spec fn coupang_image_spec(html: Seq<char>) -> Option<Seq<char>> {
    if image_from(html, ".prod-image__item img"@) is Some {
        image_from(html, ".prod-image__item img"@)
    } else if image_from(html, ".baby-product-image img"@) is Some {
        image_from(html, ".baby-product-image img"@)
    } else {
        image_from(html, ".search-product-image img"@)
    }
}

/// A relative link made absolute against the Coupang origin.
pub open spec fn normalize_link(u: Seq<char>) -> Seq<char> {
    if starts_with_spec(u, "http"@) {
        u
    } else {
        "https://www.coupang.com"@ + u
    }
}

/// The product-list links: the anchors under each list selector, in
/// order, each made absolute.
pub open spec fn coupang_list_spec(html: Seq<char>) -> Seq<Seq<char>> {
    hrefs_of(html, ".search-product"@).map_values(|u: Seq<char>| normalize_link(u)) + hrefs_of(
        html,
        ".baby-product"@,
    ).map_values(|u: Seq<char>| normalize_link(u)) + hrefs_of(
        html,
        ".search-product-item"@,
    ).map_values(|u: Seq<char>| normalize_link(u)) + hrefs_of(
        html,
        "ul.search-product-list li"@,
    ).map_values(|u: Seq<char>| normalize_link(u))
}

/// The interactive-element report lines for the React markers.
pub open spec fn marker_entries(ps: Seq<(Option<Seq<char>>, Option<Seq<char>>)>) -> Seq<
    Seq<char>,
>
    decreases ps.len(),
{
    if ps.len() == 0 {
        Seq::<Seq<char>>::empty()
    } else {
        (match ps[0].0 {
            Some(x) => seq!["Component: "@ + x],
            None => Seq::<Seq<char>>::empty(),
        }) + (match ps[0].1 {
            Some(y) => seq!["React: "@ + y],
            None => Seq::<Seq<char>>::empty(),
        }) + marker_entries(ps.drop_first())
    }
}

/// The Coupang page-type classification of an address.
pub open spec fn coupang_page_type_spec(url: Seq<char>) -> CoupangPageType {
    if contains_spec(url, "m.coupang.com"@) || contains_spec(url, "mc.coupang.com"@) {
        if contains_spec(url, "/search"@) {
            CoupangPageType::MobileSearch
        } else {
            CoupangPageType::MobileMain
        }
    } else if contains_spec(url, "pages.coupang.com"@) {
        CoupangPageType::EventPages
    } else if contains_spec(url, "/api/"@) && contains_spec(url, "/products"@) {
        CoupangPageType::ProductApi
    } else if contains_spec(url, "/api/"@) && (contains_spec(url, "/suggest"@) || contains_spec(
        url,
        "/search-suggest"@,
    )) {
        CoupangPageType::SearchSuggestApi
    } else {
        let clean = clean_coupang_url(url);
        if clean.len() == 0 || clean == "/"@ {
            CoupangPageType::MainPage
        } else {
            let parts = path_parts(clean);
            if parts.len() == 0 {
                CoupangPageType::MainPage
            } else {
                coupang_segment_type(parts, clean)
            }
        }
    }
}

/// The address with the four Coupang origin spellings removed.
pub open spec fn clean_coupang_url(url: Seq<char>) -> Seq<char> {
    remove_all(
        remove_all(
            remove_all(remove_all(url, "https://www.coupang.com"@), "https://coupang.com"@),
            "http://www.coupang.com"@,
        ),
        "http://coupang.com"@,
    )
}

/// The non-empty `/`-separated segments of a path.
pub open spec fn parts_rec(s: Seq<char>, cur: Seq<char>) -> Seq<Seq<char>>
    decreases s.len(),
{
    if s.len() == 0 {
        if cur.len() > 0 {
            seq![cur]
        } else {
            Seq::<Seq<char>>::empty()
        }
    } else if s[0] == '/' {
        (if cur.len() > 0 {
            seq![cur]
        } else {
            Seq::<Seq<char>>::empty()
        }) + parts_rec(s.drop_first(), Seq::<char>::empty())
    } else {
        parts_rec(s.drop_first(), cur.push(s[0]))
    }
}

pub open spec fn path_parts(s: Seq<char>) -> Seq<Seq<char>> {
    parts_rec(s, Seq::<char>::empty())
}

/// The page type read from the path segments of a cleaned address.
pub open spec fn coupang_segment_type(parts: Seq<Seq<char>>, clean: Seq<char>) -> CoupangPageType {
    let p0 = parts[0];
    if p0 == "vp"@ {
        if parts.len() > 1 && parts[1] == "products"@ {
            CoupangPageType::ProductDetail
        } else {
            CoupangPageType::ProductOptions
        }
    } else if p0 == "products"@ {
        CoupangPageType::ProductDetail
    } else if p0 == "np"@ {
        if parts.len() > 1 {
            if parts[1] == "search"@ {
                CoupangPageType::SearchResults
            } else if parts[1] == "categories"@ {
                CoupangPageType::Category
            } else if parts[1] == "brands"@ {
                CoupangPageType::Brand
            } else if parts[1] == "goldbox"@ {
                CoupangPageType::GoldBox
            } else if parts[1] == "campaigns"@ {
                CoupangPageType::Campaign
            } else {
                CoupangPageType::Category
            }
        } else if contains_spec(clean, "search"@) {
            CoupangPageType::SearchResults
        } else {
            CoupangPageType::Category
        }
    } else if p0 == "goldbox"@ {
        CoupangPageType::GoldBox
    } else if p0 == "campaign"@ || p0 == "campaigns"@ {
        CoupangPageType::Campaign
    } else if p0 == "event"@ || p0 == "events"@ {
        CoupangPageType::EventPages
    } else if p0 == "coupon"@ || p0 == "coupons"@ {
        CoupangPageType::CouponCenter
    } else if p0 == "fresh"@ || p0 == "rocket-fresh"@ {
        CoupangPageType::RocketFresh
    } else if p0 == "global"@ || p0 == "rocket-global"@ {
        CoupangPageType::RocketGlobal
    } else if p0 == "luxury"@ || p0 == "rocket-luxury"@ {
        CoupangPageType::RocketLuxury
    } else if p0 == "biz"@ || p0 == "business"@ {
        CoupangPageType::CoupangBiz
    } else if p0 == "my"@ || p0 == "mycoupang"@ || p0 == "my-coupang"@ {
        CoupangPageType::MyCoupang
    } else if p0 == "login"@ || p0 == "member"@ || p0 == "signin"@ {
        CoupangPageType::Login
    } else if p0 == "search"@ {
        CoupangPageType::SearchResults
    } else if p0 == "category"@ {
        CoupangPageType::Category
    } else if p0 == "brand"@ {
        CoupangPageType::Brand
    } else if contains_spec(clean, "product"@) {
        CoupangPageType::ProductDetail
    } else if contains_spec(clean, "search"@) {
        CoupangPageType::SearchResults
    } else if contains_spec(clean, "category"@) {
        CoupangPageType::Category
    } else {
        CoupangPageType::Unknown
    }
}

/// The Coupang HTML parser.
#[derive(Debug)]
pub struct CoupangParse;

/// The per-site parsing capability; one implementation per
/// marketplace.  The verified contracts live on the implementations'
/// inherent methods.
pub trait HtmlParser {
    fn parse_product(&self, html: &str, url: &str) -> Result<Product, ErrorS>;

    fn parse_product_list(&self, html: &str) -> Result<Vec<String>, ErrorS>;

    fn interactive_elements(&self, html: &str) -> Result<Vec<String>, ErrorS>;
}

impl CoupangParse {
    pub fn new() -> (r: Self) {
        CoupangParse
    }

    /// Classify a Coupang address by page type.
    pub fn decide_url_type(&self, url: &str) -> (r: Result<CoupangPageType, ErrorS>)
        ensures
            r matches Ok(t) && t == coupang_page_type_spec(url@),
    {
        let v = chars_vec(url);
        let n = v.len();
        proof {
            assert(v@.subrange(0, n as int) =~= url@);
        }
        if contains_at(&v, 0, n, &chars_vec("m.coupang.com")) || contains_at(
            &v,
            0,
            n,
            &chars_vec("mc.coupang.com"),
        ) {
            if contains_at(&v, 0, n, &chars_vec("/search")) {
                return Ok(CoupangPageType::MobileSearch);
            }
            return Ok(CoupangPageType::MobileMain);
        }
        if contains_at(&v, 0, n, &chars_vec("pages.coupang.com")) {
            return Ok(CoupangPageType::EventPages);
        }
        if contains_at(&v, 0, n, &chars_vec("/api/")) {
            if contains_at(&v, 0, n, &chars_vec("/products")) {
                return Ok(CoupangPageType::ProductApi);
            }
            if contains_at(&v, 0, n, &chars_vec("/suggest")) || contains_at(
                &v,
                0,
                n,
                &chars_vec("/search-suggest"),
            ) {
                return Ok(CoupangPageType::SearchSuggestApi);
            }
        }
        proof {
            reveal_strlit("https://www.coupang.com");
            reveal_strlit("https://coupang.com");
            reveal_strlit("http://www.coupang.com");
            reveal_strlit("http://coupang.com");
        }
        let c1 = remove_all_chars(&v, &chars_vec("https://www.coupang.com"));
        let c2 = remove_all_chars(&c1, &chars_vec("https://coupang.com"));
        let c3 = remove_all_chars(&c2, &chars_vec("http://www.coupang.com"));
        let clean = remove_all_chars(&c3, &chars_vec("http://coupang.com"));
        let ghost cl = clean_coupang_url(url@);
        let m = clean.len();
        if m == 0 || seg_eq(&clean, 0, m, &chars_vec("/")) {
            proof {
                if m > 0 {
                    assert(clean@.subrange(0, m as int) =~= clean@);
                }
            }
            return Ok(CoupangPageType::MainPage);
        }
        proof {
            assert(clean@.subrange(0, m as int) =~= clean@);
        }
        let parts = split_parts(&clean);
        let ghost ps = path_parts(cl);
        if parts.len() == 0 {
            return Ok(CoupangPageType::MainPage);
        }
        let (a0, b0) = (parts[0].0, parts[0].1);
        proof {
            assert(ps[0] == clean@.subrange(a0 as int, b0 as int));
        }
        let has_second = parts.len() > 1;
        if seg_eq(&clean, a0, b0, &chars_vec("vp")) {
            if has_second {
                let (a1, b1) = (parts[1].0, parts[1].1);
                proof {
                    assert(ps[1] == clean@.subrange(a1 as int, b1 as int));
                }
                if seg_eq(&clean, a1, b1, &chars_vec("products")) {
                    return Ok(CoupangPageType::ProductDetail);
                }
            }
            return Ok(CoupangPageType::ProductOptions);
        }
        if seg_eq(&clean, a0, b0, &chars_vec("products")) {
            return Ok(CoupangPageType::ProductDetail);
        }
        if seg_eq(&clean, a0, b0, &chars_vec("np")) {
            if has_second {
                let (a1, b1) = (parts[1].0, parts[1].1);
                proof {
                    assert(ps[1] == clean@.subrange(a1 as int, b1 as int));
                }
                if seg_eq(&clean, a1, b1, &chars_vec("search")) {
                    return Ok(CoupangPageType::SearchResults);
                }
                if seg_eq(&clean, a1, b1, &chars_vec("categories")) {
                    return Ok(CoupangPageType::Category);
                }
                if seg_eq(&clean, a1, b1, &chars_vec("brands")) {
                    return Ok(CoupangPageType::Brand);
                }
                if seg_eq(&clean, a1, b1, &chars_vec("goldbox")) {
                    return Ok(CoupangPageType::GoldBox);
                }
                if seg_eq(&clean, a1, b1, &chars_vec("campaigns")) {
                    return Ok(CoupangPageType::Campaign);
                }
                return Ok(CoupangPageType::Category);
            }
            if contains_at(&clean, 0, m, &chars_vec("search")) {
                return Ok(CoupangPageType::SearchResults);
            }
            return Ok(CoupangPageType::Category);
        }
        if seg_eq(&clean, a0, b0, &chars_vec("goldbox")) {
            return Ok(CoupangPageType::GoldBox);
        }
        if seg_eq(&clean, a0, b0, &chars_vec("campaign")) || seg_eq(
            &clean,
            a0,
            b0,
            &chars_vec("campaigns"),
        ) {
            return Ok(CoupangPageType::Campaign);
        }
        if seg_eq(&clean, a0, b0, &chars_vec("event")) || seg_eq(
            &clean,
            a0,
            b0,
            &chars_vec("events"),
        ) {
            return Ok(CoupangPageType::EventPages);
        }
        if seg_eq(&clean, a0, b0, &chars_vec("coupon")) || seg_eq(
            &clean,
            a0,
            b0,
            &chars_vec("coupons"),
        ) {
            return Ok(CoupangPageType::CouponCenter);
        }
        if seg_eq(&clean, a0, b0, &chars_vec("fresh")) || seg_eq(
            &clean,
            a0,
            b0,
            &chars_vec("rocket-fresh"),
        ) {
            return Ok(CoupangPageType::RocketFresh);
        }
        if seg_eq(&clean, a0, b0, &chars_vec("global")) || seg_eq(
            &clean,
            a0,
            b0,
            &chars_vec("rocket-global"),
        ) {
            return Ok(CoupangPageType::RocketGlobal);
        }
        if seg_eq(&clean, a0, b0, &chars_vec("luxury")) || seg_eq(
            &clean,
            a0,
            b0,
            &chars_vec("rocket-luxury"),
        ) {
            return Ok(CoupangPageType::RocketLuxury);
        }
        if seg_eq(&clean, a0, b0, &chars_vec("biz")) || seg_eq(
            &clean,
            a0,
            b0,
            &chars_vec("business"),
        ) {
            return Ok(CoupangPageType::CoupangBiz);
        }
        if seg_eq(&clean, a0, b0, &chars_vec("my")) || seg_eq(
            &clean,
            a0,
            b0,
            &chars_vec("mycoupang"),
        ) || seg_eq(&clean, a0, b0, &chars_vec("my-coupang")) {
            return Ok(CoupangPageType::MyCoupang);
        }
        if seg_eq(&clean, a0, b0, &chars_vec("login")) || seg_eq(
            &clean,
            a0,
            b0,
            &chars_vec("member"),
        ) || seg_eq(&clean, a0, b0, &chars_vec("signin")) {
            return Ok(CoupangPageType::Login);
        }
        if seg_eq(&clean, a0, b0, &chars_vec("search")) {
            return Ok(CoupangPageType::SearchResults);
        }
        if seg_eq(&clean, a0, b0, &chars_vec("category")) {
            return Ok(CoupangPageType::Category);
        }
        if seg_eq(&clean, a0, b0, &chars_vec("brand")) {
            return Ok(CoupangPageType::Brand);
        }
        if contains_at(&clean, 0, m, &chars_vec("product")) {
            return Ok(CoupangPageType::ProductDetail);
        }
        if contains_at(&clean, 0, m, &chars_vec("search")) {
            return Ok(CoupangPageType::SearchResults);
        }
        if contains_at(&clean, 0, m, &chars_vec("category")) {
            return Ok(CoupangPageType::Category);
        }
        Ok(CoupangPageType::Unknown)
    }

    /// Extract one product record from a Coupang page: name, price and
    /// image through their selector fallback chains, the site fixed to
    /// `coupang` and the address recorded.
    pub fn parse_product_exact(&self, html: &str, url: &str) -> (r: Result<Product, ErrorS>)
        ensures
            r matches Ok(p) && ({
                &&& p.site@ == "coupang"@
                &&& p.url@ == url@
                &&& p.product_name@ == (match coupang_name_spec(html@) {
                    Some(t) => t,
                    None => "Unknown Product"@,
                })
                &&& p.current_price == coupang_price_spec(html@)
                &&& p.image_url@ == (match coupang_image_spec(html@) {
                    Some(u) => u,
                    None => Seq::<char>::empty(),
                })
                &&& p.original_price is None
                &&& p.discount_rate is None
                &&& p.id is None
            }),
    {
        let mut product = Product::empty();
        product.site = String::from_str("coupang");
        product.url = url.to_owned();
        let name = first_text_chain(html);
        match name {
            Some(t) => {
                product.product_name = trim_string(t.as_str());
            },
            None => {},
        }
        product.current_price = price_chain(html);
        match image_chain(html) {
            Some(u) => {
                product.image_url = u;
            },
            None => {},
        }
        Ok(product)
    }

    /// The product links on a Coupang list page, absolute, in the
    /// order of the four list selectors.
    pub fn parse_product_list_exact(&self, html: &str) -> (r: Result<Vec<String>, ErrorS>)
        ensures
            r matches Ok(v) && v@.map_values(|s: String| s@) == coupang_list_spec(html@),
    {
        let mut urls: Vec<String> = Vec::new();
        append_normalized(&mut urls, select_hrefs(html, ".search-product"), Ghost(
            hrefs_of(html@, ".search-product"@),
        ));
        append_normalized(&mut urls, select_hrefs(html, ".baby-product"), Ghost(
            hrefs_of(html@, ".baby-product"@),
        ));
        append_normalized(&mut urls, select_hrefs(html, ".search-product-item"), Ghost(
            hrefs_of(html@, ".search-product-item"@),
        ));
        append_normalized(&mut urls, select_hrefs(html, "ul.search-product-list li"), Ghost(
            hrefs_of(html@, "ul.search-product-list li"@),
        ));
        proof {
            assert(urls@.map_values(|s: String| s@) =~= coupang_list_spec(html@));
        }
        Ok(urls)
    }

    /// The notable interactive markers of a Coupang page: one line per
    /// React component marker, then one line per pagination block.
    pub fn interactive_elements_exact(&self, html: &str) -> (r: Result<Vec<String>, ErrorS>)
        ensures
            r matches Ok(v) && v@.map_values(|s: String| s@) == marker_entries(
                attr_pairs_of(
                    html@,
                    "[data-react-class], [data-component-type]"@,
                    "data-component-type"@,
                    "data-react-class"@,
                ),
            ) + Seq::<Seq<char>>::new(
                (if match_count_of(html@, ".search-pagination, .pagination"@) >= 0 {
                    match_count_of(html@, ".search-pagination, .pagination"@)
                } else {
                    0
                }) as nat,
                |i: int| "Pagination found"@,
            ),
    {
        let pairs = select_attr_pairs(
            html,
            "[data-react-class], [data-component-type]",
            "data-component-type",
            "data-react-class",
        );
        let ghost pm = attr_pairs_of(
            html@,
            "[data-react-class], [data-component-type]"@,
            "data-component-type"@,
            "data-react-class"@,
        );
        let mut elements: Vec<String> = Vec::new();
        let mut i: usize = 0;
        proof {
            assert(pm.skip(0) =~= pm);
            assert(elements@.map_values(|s: String| s@) =~= Seq::<Seq<char>>::empty());
        }
        while i < pairs.len()
            invariant
                0 <= i <= pairs@.len(),
                pm == pairs@.map_values(
                    |p: (Option<String>, Option<String>)|
                        (
                            match p.0 {
                                Some(s) => Some(s@),
                                None => None,
                            },
                            match p.1 {
                                Some(s) => Some(s@),
                                None => None,
                            },
                        ),
                ),
                elements@.map_values(|s: String| s@) + marker_entries(pm.skip(i as int))
                    == marker_entries(pm),
            decreases pairs@.len() - i,
        {
            let ghost rest = pm.skip(i as int);
            proof {
                assert(rest[0] == pm[i as int]);
                assert(rest.drop_first() =~= pm.skip(i + 1));
            }
            let ghost before = elements@;
            match &pairs[i].0 {
                Some(x) => {
                    let mut line = String::from_str("Component: ");
                    line.append(x.as_str());
                    elements.push(line);
                },
                None => {},
            }
            match &pairs[i].1 {
                Some(y) => {
                    let mut line = String::from_str("React: ");
                    line.append(y.as_str());
                    elements.push(line);
                },
                None => {},
            }
            proof {
                assert(elements@.map_values(|s: String| s@) =~= before.map_values(
                    |s: String| s@,
                ) + (match pm[i as int].0 {
                    Some(x) => seq!["Component: "@ + x],
                    None => Seq::<Seq<char>>::empty(),
                }) + (match pm[i as int].1 {
                    Some(y) => seq!["React: "@ + y],
                    None => Seq::<Seq<char>>::empty(),
                }));
            }
            i = i + 1;
        }
        proof {
            assert(pm.skip(pm.len() as int).len() == 0);
            assert(marker_entries(pm.skip(pm.len() as int)) =~= Seq::<Seq<char>>::empty());
            assert(elements@.map_values(|s: String| s@) =~= marker_entries(pm));
        }
        let count = count_matches(html, ".search-pagination, .pagination");
        let ghost base = elements@.map_values(|s: String| s@);
        let mut k: usize = 0;
        while k < count
            invariant
                0 <= k <= count,
                count as int == match_count_of(html@, ".search-pagination, .pagination"@),
                elements@.map_values(|s: String| s@) == base + Seq::<Seq<char>>::new(
                    k as nat,
                    |i: int| "Pagination found"@,
                ),
            decreases count - k,
        {
            let ghost before = elements@;
            elements.push(String::from_str("Pagination found"));
            proof {
                assert(elements@.map_values(|s: String| s@) =~= before.map_values(
                    |s: String| s@,
                ).push("Pagination found"@));
                assert(Seq::<Seq<char>>::new((k + 1) as nat, |i: int| "Pagination found"@)
                    =~= Seq::<Seq<char>>::new(k as nat, |i: int| "Pagination found"@).push(
                    "Pagination found"@,
                ));
                assert(elements@.map_values(|s: String| s@) =~= base + Seq::<Seq<char>>::new(
                    (k + 1) as nat,
                    |i: int| "Pagination found"@,
                ));
            }
            k = k + 1;
        }
        Ok(elements)
    }
}

impl HtmlParser for CoupangParse {
    fn parse_product(&self, html: &str, url: &str) -> Result<Product, ErrorS> {
        self.parse_product_exact(html, url)
    }

    fn parse_product_list(&self, html: &str) -> Result<Vec<String>, ErrorS> {
        self.parse_product_list_exact(html)
    }

    fn interactive_elements(&self, html: &str) -> Result<Vec<String>, ErrorS> {
        self.interactive_elements_exact(html)
    }
}

/// Try the four name selectors in order.
fn first_text_chain(html: &str) -> (r: Option<String>)
    ensures
        match (r, coupang_name_spec(html@)) {
            (Some(x), Some(y)) => trim_spec(x@) == y,
            (None, None) => true,
            _ => false,
        },
{
    match select_first_text(html, ".prod-buy-header__title") {
        Some(t) => Some(t),
        None => match select_first_text(html, ".name") {
            Some(t) => Some(t),
            None => match select_first_text(html, ".search-product-title") {
                Some(t) => Some(t),
                None => select_first_text(html, ".baby-product-title"),
            },
        },
    }
}

/// Try the four price selectors in order, reading digits.
fn price_chain(html: &str) -> (r: Option<u64>)
    ensures
        r == coupang_price_spec(html@),
{
    match price_under(html, ".total-price strong") {
        Some(p) => Some(p),
        None => match price_under(html, ".price-value") {
            Some(p) => Some(p),
            None => match price_under(html, ".sale-price") {
                Some(p) => Some(p),
                None => price_under(html, ".price .total"),
            },
        },
    }
}

/// The digits of the text under one selector, as a saturating amount.
fn price_under(html: &str, sel: &str) -> (r: Option<u64>)
    ensures
        r == price_from(html@, sel@),
{
    match select_first_text(html, sel) {
        Some(t) => {
            let v = chars_vec(t.as_str());
            let mut found: bool = false;
            let mut over: bool = false;
            let mut acc: u64 = 0;
            let mut i: usize = 0;
            proof {
                assert(v@.take(0) =~= Seq::<char>::empty());
                assert(digits_of(v@.take(0)) =~= Seq::<char>::empty());
                reveal_with_fuel(Seq::filter, 2);
            }
            while i < v.len()
                invariant
                    0 <= i <= v@.len(),
                    found <==> digits_of(v@.take(i as int)).len() > 0,
                    !over ==> acc == sat_price(digits_val(digits_of(v@.take(i as int))))
                        && 0 <= digits_val(digits_of(v@.take(i as int))) <= u64::MAX,
                    over ==> acc == u64::MAX && digits_val(digits_of(v@.take(i as int)))
                        > u64::MAX,
                decreases v@.len() - i,
            {
                let c = v[i];
                proof {
                    assert(v@.take(i + 1).drop_last() =~= v@.take(i as int));
                    assert(v@.take(i + 1).last() == c);
                    reveal_with_fuel(Seq::filter, 2);
                }
                if '0' <= c && c <= '9' {
                    found = true;
                    proof {
                        assert(digits_of(v@.take(i + 1)) =~= digits_of(v@.take(i as int)).push(
                            c,
                        ));
                        assert(digits_of(v@.take(i as int)).push(c).drop_last() =~= digits_of(
                            v@.take(i as int),
                        ));
                        assert(digits_of(v@.take(i as int)).push(c).last() == c);
                        assert(digits_val(digits_of(v@.take(i + 1))) == digits_val(
                            digits_of(v@.take(i as int)),
                        ) * 10 + crate::text::digit_val(c));
                    }
                    let d0: i64 = (c as u32 as i64) - 48;
                    proof {
                        assert(0 <= d0 < 10);
                        assert(d0 as int == crate::text::digit_val(c));
                    }
                    let d: u64 = d0 as u64;
                    if over {
                        proof {
                            assert(digits_val(digits_of(v@.take(i + 1))) == digits_val(
                                digits_of(v@.take(i as int)),
                            ) * 10 + d);
                        }
                    } else {
                        let next: u128 = (acc as u128) * 10 + (d as u128);
                        if next > 0xFFFF_FFFF_FFFF_FFFFu128 {
                            over = true;
                            acc = u64::MAX;
                        } else {
                            acc = next as u64;
                        }
                    }
                } else {
                    proof {
                        assert(digits_of(v@.take(i + 1)) =~= digits_of(v@.take(i as int)));
                    }
                }
                i = i + 1;
            }
            proof {
                assert(v@.take(v@.len() as int) =~= v@);
            }
            if found {
                Some(acc)
            } else {
                None
            }
        },
        None => None,
    }
}

/// Try one image selector's four source attributes in order.
fn image_under(html: &str, sel: &str) -> (r: Option<String>)
    ensures
        match (r, image_from(html@, sel@)) {
            (Some(x), Some(y)) => x@ == y,
            (None, None) => true,
            _ => false,
        },
{
    match select_first_attr(html, sel, "data-img-src") {
        Some(u) => Some(u),
        None => match select_first_attr(html, sel, "data-original-src") {
            Some(u) => Some(u),
            None => match select_first_attr(html, sel, "data-src") {
                Some(u) => Some(u),
                None => select_first_attr(html, sel, "src"),
            },
        },
    }
}

/// Try the three image selectors in order.
fn image_chain(html: &str) -> (r: Option<String>)
    ensures
        match (r, coupang_image_spec(html@)) {
            (Some(x), Some(y)) => x@ == y,
            (None, None) => true,
            _ => false,
        },
{
    match image_under(html, ".prod-image__item img") {
        Some(u) => Some(u),
        None => match image_under(html, ".baby-product-image img") {
            Some(u) => Some(u),
            None => image_under(html, ".search-product-image img"),
        },
    }
}

/// Append each link, made absolute, preserving order.
fn append_normalized(out: &mut Vec<String>, links: Vec<String>, model: Ghost<Seq<Seq<char>>>)
    requires
        links@.map_values(|s: String| s@) == model@,
    ensures
        final(out)@.map_values(|s: String| s@) == old(out)@.map_values(|s: String| s@)
            + model@.map_values(|u: Seq<char>| normalize_link(u)),
{
    proof {
        reveal_strlit("http");
    }
    let ghost base = out@.map_values(|s: String| s@);
    let mut i: usize = 0;
    proof {
        assert(base + model@.map_values(|u: Seq<char>| normalize_link(u)).take(0) =~= base);
        assert(out@.map_values(|s: String| s@) =~= base);
    }
    while i < links.len()
        invariant
            0 <= i <= links@.len(),
            links@.map_values(|s: String| s@) == model@,
            out@.map_values(|s: String| s@) == base + model@.map_values(
                |u: Seq<char>| normalize_link(u),
            ).take(i as int),
        decreases links@.len() - i,
    {
        let href = &links[i];
        let hv = chars_vec(href.as_str());
        let pat = chars_vec("http");
        let hlen = hv.len();
        let full: String = if starts_with_at(&hv, 0, hlen, &pat) {
            proof {
                assert(hv@.subrange(0, hlen as int) =~= href@);
            }
            href.clone()
        } else {
            proof {
                assert(hv@.subrange(0, hlen as int) =~= href@);
            }
            let mut s = String::from_str("https://www.coupang.com");
            s.append(href.as_str());
            s
        };
        let ghost before = out@;
        proof {
            assert(full@ == normalize_link(model@[i as int]));
        }
        out.push(full);
        proof {
            let f = |u: Seq<char>| normalize_link(u);
            assert(out@.map_values(|s: String| s@) =~= before.map_values(|s: String| s@).push(
                normalize_link(model@[i as int]),
            ));
            assert(model@.map_values(f).take(i + 1) =~= model@.map_values(f).take(
                i as int,
            ).push(normalize_link(model@[i as int])));
            assert(out@.map_values(|s: String| s@) =~= base + model@.map_values(f).take(i + 1));
        }
        i = i + 1;
    }
    proof {
        assert(model@.map_values(|u: Seq<char>| normalize_link(u)).take(model@.len() as int)
            =~= model@.map_values(|u: Seq<char>| normalize_link(u)));
    }
}

/// Split `v` into the bounds of its non-empty `/`-separated segments.
fn split_parts(v: &Vec<char>) -> (r: Vec<(usize, usize)>)
    ensures
        r@.map_values(|p: (usize, usize)| v@.subrange(p.0 as int, p.1 as int)) == path_parts(
            v@,
        ),
        forall|k: int| 0 <= k < r@.len() ==> (#[trigger] r@[k]).0 <= r@[k].1 <= v@.len(),
{
    let n = v.len();
    let mut out: Vec<(usize, usize)> = Vec::new();
    let mut segstart: usize = 0;
    let mut i: usize = 0;
    proof {
        assert(v@.skip(0) =~= v@);
        assert(v@.subrange(0, 0) =~= Seq::<char>::empty());
        assert(out@.map_values(|p: (usize, usize)| v@.subrange(p.0 as int, p.1 as int))
            =~= Seq::<Seq<char>>::empty());
    }
    while i < n
        invariant
            0 <= segstart <= i <= n,
            n == v@.len(),
            out@.map_values(|p: (usize, usize)| v@.subrange(p.0 as int, p.1 as int)) + parts_rec(
                v@.skip(i as int),
                v@.subrange(segstart as int, i as int),
            ) == path_parts(v@),
            forall|k: int| 0 <= k < out@.len() ==> (#[trigger] out@[k]).0 <= out@[k].1 <= n,
        decreases n - i,
    {
        let ghost rest = v@.skip(i as int);
        let ghost cur = v@.subrange(segstart as int, i as int);
        proof {
            assert(rest[0] == v@[i as int]);
            assert(rest.drop_first() =~= v@.skip(i + 1));
        }
        if v[i] == '/' {
            let ghost before = out@;
            if segstart < i {
                out.push((segstart, i));
                proof {
                    assert(cur.len() > 0);
                    assert(out@.map_values(
                        |p: (usize, usize)| v@.subrange(p.0 as int, p.1 as int),
                    ) =~= before.map_values(
                        |p: (usize, usize)| v@.subrange(p.0 as int, p.1 as int),
                    ) + seq![cur]);
                }
            } else {
                proof {
                    assert(cur.len() == 0);
                }
            }
            segstart = i + 1;
            proof {
                assert(v@.subrange(segstart as int, i + 1) =~= Seq::<char>::empty());
            }
        } else {
            proof {
                assert(v@.subrange(segstart as int, i + 1) =~= cur.push(v@[i as int]));
            }
        }
        i = i + 1;
    }
    let ghost cur = v@.subrange(segstart as int, n as int);
    proof {
        assert(v@.skip(n as int).len() == 0);
    }
    if segstart < n {
        let ghost before = out@;
        out.push((segstart, n));
        proof {
            assert(cur.len() > 0);
            assert(out@.map_values(|p: (usize, usize)| v@.subrange(p.0 as int, p.1 as int))
                =~= before.map_values(|p: (usize, usize)| v@.subrange(p.0 as int, p.1 as int))
                + seq![cur]);
        }
    } else {
        proof {
            assert(cur.len() == 0);
            assert(out@.map_values(|p: (usize, usize)| v@.subrange(p.0 as int, p.1 as int))
                + parts_rec(v@.skip(n as int), cur) =~= out@.map_values(
                |p: (usize, usize)| v@.subrange(p.0 as int, p.1 as int),
            ));
        }
    }
    out
}

/// A parser registry: one strategy per marketplace, selected by host.
#[derive(Debug)]
pub struct ParserFactory;

impl ParserFactory {
    /// The parser for a supported address; an unsupported site is a
    /// crawl error.
    pub fn get_parser(url: &str) -> (r: Result<CoupangParse, ErrorS>)
        ensures
            contains_spec(url@, "coupang.com"@) <==> r is Ok,
            !contains_spec(url@, "coupang.com"@) ==> (r matches Err(e) && e.kind()
                == crate::errors::ErrorType::Crawl),
    {
        let v = chars_vec(url);
        let n = v.len();
        proof {
            assert(v@.subrange(0, n as int) =~= url@);
        }
        if contains_at(&v, 0, n, &chars_vec("coupang.com")) {
            Ok(CoupangParse::new())
        } else {
            Err(
                ErrorS::crawl(
                    String::from_str("ParserFactory::get_parser"),
                    String::from_str("Unsupported site"),
                ),
            )
        }
    }
}

/// The HTML parser store handed to the orchestrator.
#[derive(Debug)]
pub struct HtmlRepository;

impl HtmlRepository {
    pub fn new() -> (r: Self) {
        HtmlRepository
    }

    /// Delegates to the registry.
    pub fn get_parser(&self, url: &str) -> (r: Result<CoupangParse, ErrorS>)
        ensures
            contains_spec(url@, "coupang.com"@) <==> r is Ok,
    {
        ParserFactory::get_parser(url)
    }
}

} // verus!
