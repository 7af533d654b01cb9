use crawl_agent::html::{CoupangPageType, CoupangParse, HtmlRepository, ParserFactory};
use crawl_agent::llm_service::{prompt_selector, LLMService};
use crawl_agent::site::PlatformInfo;

#[test]
fn url_types_cover_the_page_map() {
    let p = CoupangParse::new();
    let cases = vec![
        ("https://www.coupang.com", CoupangPageType::MainPage),
        ("https://www.coupang.com/", CoupangPageType::MainPage),
        ("https://www.coupang.com/vp/products/123", CoupangPageType::ProductDetail),
        ("https://www.coupang.com/vp/options", CoupangPageType::ProductOptions),
        ("https://www.coupang.com/products/99", CoupangPageType::ProductDetail),
        ("https://www.coupang.com/np/search", CoupangPageType::SearchResults),
        ("https://www.coupang.com/np/categories/1001", CoupangPageType::Category),
        ("https://www.coupang.com/np/brands/nike", CoupangPageType::Brand),
        ("https://www.coupang.com/np/goldbox", CoupangPageType::GoldBox),
        ("https://www.coupang.com/np/campaigns/summer", CoupangPageType::Campaign),
        ("https://www.coupang.com/goldbox", CoupangPageType::GoldBox),
        ("https://www.coupang.com/campaign/fall", CoupangPageType::Campaign),
        ("https://www.coupang.com/event/black-friday", CoupangPageType::EventPages),
        ("https://www.coupang.com/coupon", CoupangPageType::CouponCenter),
        ("https://www.coupang.com/fresh", CoupangPageType::RocketFresh),
        ("https://www.coupang.com/global/home", CoupangPageType::RocketGlobal),
        ("https://www.coupang.com/luxury", CoupangPageType::RocketLuxury),
        ("https://www.coupang.com/biz", CoupangPageType::CoupangBiz),
        ("https://www.coupang.com/my", CoupangPageType::MyCoupang),
        ("https://www.coupang.com/login", CoupangPageType::Login),
        ("https://m.coupang.com/home", CoupangPageType::MobileMain),
        ("https://m.coupang.com/search?q=tv", CoupangPageType::MobileSearch),
        ("https://pages.coupang.com/event", CoupangPageType::EventPages),
        ("https://www.coupang.com/api/products/5", CoupangPageType::ProductApi),
        ("https://www.coupang.com/api/suggest?q=a", CoupangPageType::SearchSuggestApi),
        ("https://www.coupang.com/whatever", CoupangPageType::Unknown),
        ("https://www.coupang.com/best-product-page", CoupangPageType::ProductDetail),
    ];
    for (url, expected) in cases {
        let got = p.decide_url_type(url).unwrap();
        assert_eq!(got, expected, "for {}", url);
    }
}

#[test]
fn parse_product_reads_name_price_image() {
    let p = CoupangParse::new();
    let html = "<html><body>\
        <h1 class=\"prod-buy-header__title\">  Good Monitor  </h1>\
        <div class=\"total-price\"><strong>129,000원</strong></div>\
        <div class=\"prod-image__item\"><img data-img-src=\"//img.example/m.jpg\"/></div>\
        </body></html>";
    let product = p
        .parse_product_exact(html, "https://www.coupang.com/vp/products/1")
        .unwrap();
    assert_eq!(product.product_name, "Good Monitor");
    assert_eq!(product.current_price, Some(129000));
    assert_eq!(product.image_url, "//img.example/m.jpg");
    assert_eq!(product.site, "coupang");
    assert_eq!(product.url, "https://www.coupang.com/vp/products/1");
}

#[test]
fn parse_product_falls_back_through_selectors() {
    let p = CoupangParse::new();
    let html = "<html><body>\
        <div class=\"name\">Fallback Name</div>\
        <span class=\"sale-price\">no digits here</span>\
        <span class=\"price-value\">7,500</span>\
        </body></html>";
    let product = p.parse_product_exact(html, "https://www.coupang.com/x").unwrap();
    assert_eq!(product.product_name, "Fallback Name");
    assert_eq!(product.current_price, Some(7500));
    assert_eq!(product.image_url, "");
}

#[test]
fn parse_product_without_matches_keeps_placeholders() {
    let p = CoupangParse::new();
    let product = p
        .parse_product_exact("<html><body><p>empty</p></body></html>", "https://u")
        .unwrap();
    assert_eq!(product.product_name, "Unknown Product");
    assert!(product.current_price.is_none());
}

#[test]
fn parse_product_list_makes_links_absolute() {
    let p = CoupangParse::new();
    let html = "<html><body>\
        <div class=\"search-product\"><a href=\"/vp/products/1\">one</a></div>\
        <div class=\"search-product\"><a href=\"https://other.example/2\">two</a></div>\
        </body></html>";
    let urls = p.parse_product_list_exact(html).unwrap();
    assert!(urls.contains(&"https://www.coupang.com/vp/products/1".to_string()));
    assert!(urls.contains(&"https://other.example/2".to_string()));
}

#[test]
fn interactive_elements_report_markers_and_pagination() {
    let p = CoupangParse::new();
    let html = "<html><body>\
        <div data-component-type=\"carousel\"></div>\
        <div data-react-class=\"SearchBox\"></div>\
        <div class=\"pagination\"></div>\
        </body></html>";
    let lines = p.interactive_elements_exact(html).unwrap();
    assert!(lines.contains(&"Component: carousel".to_string()));
    assert!(lines.contains(&"React: SearchBox".to_string()));
    assert!(lines.contains(&"Pagination found".to_string()));
}

#[test]
fn parser_factory_knows_coupang_only() {
    assert!(ParserFactory::get_parser("https://www.coupang.com/np/search").is_ok());
    assert!(ParserFactory::get_parser("https://www.amazon.com/dp/1").is_err());
    let repo = HtmlRepository::new();
    assert!(repo.get_parser("https://www.coupang.com").is_ok());
}

#[test]
fn detect_platform_from_url() {
    assert_eq!(PlatformInfo::detect_from_url("https://www.amazon.com/dp/1").as_deref(), Some("amazon"));
    assert_eq!(
        PlatformInfo::detect_from_url("https://www.coupang.com/np").as_deref(),
        Some("coupang")
    );
    assert_eq!(
        PlatformInfo::detect_from_url("https://ko.aliexpress.com/item").as_deref(),
        Some("aliexpress")
    );
    assert!(PlatformInfo::detect_from_url("https://example.org").is_none());
}

#[test]
fn analyze_page_classifies_by_url_and_html() {
    let svc = LLMService::new(None);
    let a = svc
        .analyze_page("<div class=\"price\">10</div>", "https://shop.example/product/1")
        .unwrap();
    assert_eq!(a.page_type, "product_detail");
    assert_eq!(a.confidence, 90);
    assert!(a.elements_found.contains(&"price_element".to_string()));
    let a = svc
        .analyze_page("<p>landing</p>", "https://shop.example/")
        .unwrap();
    assert_eq!(a.page_type, "main_page");
    assert_eq!(a.recommended_action, "navigate_to_categories");
    assert_eq!(a.confidence, 60);
}

#[test]
fn analyze_page_counts_elements_in_reasoning() {
    let svc = LLMService::new(None);
    let a = svc
        .analyze_page(
            "<form><button>go</button></form><div class=\"price\">1</div>",
            "https://shop.example/search?q=tv",
        )
        .unwrap();
    assert_eq!(a.page_type, "product_list");
    assert_eq!(a.elements_found.len(), 3);
    assert!(a.reasoning.contains("3"));
}

#[test]
fn recommend_action_follows_goal_rules() {
    let svc = LLMService::new(None);
    let r = svc
        .recommend_action("<button>add to cart</button>", "find product deals")
        .unwrap();
    assert_eq!(r, "action: extract_text, selector: .product-info, reason: 상품 정보 추출");
    let r = svc.recommend_action("<p></p>", "just scroll the page").unwrap();
    assert_eq!(r, "action: scroll, direction: down, pixels: 800, reason: 추가 콘텐츠 로드");
}

#[test]
fn extract_product_info_lists_selectors() {
    let svc = LLMService::new(None);
    let sel = svc.extract_product_info("<html/>").unwrap();
    assert_eq!(sel.len(), 8);
    assert_eq!(sel[0], ".product-name");
    assert_eq!(sel[7], ".description");
}

#[test]
fn prompt_selector_per_site() {
    assert!(prompt_selector("쿠팡").contains("로켓배송"));
    assert!(prompt_selector("11번가").contains("오늘특가"));
    assert_eq!(prompt_selector("somewhere"), "기본 프롬프트");
}
