//! Rule-based page analysis: the oracle adapter's deterministic side.
//! Classifies a page from its address and HTML, recommends the next
//! action, and offers extraction selectors.  Calling a remote model is
//! the application's work; when no API key is configured — and today
//! also as the API path's fallback — these rules decide.

use vstd::prelude::*;
use vstd::string::*;
use crate::errors::ErrorS;
use crate::text::{chars_vec, contains_at, contains_spec, dec_spec, dec_string, lower_spec,
    lower_vec};

verus! {

/// The oracle adapter's deterministic analysis service.
#[derive(Debug)]
pub struct LLMService {
    use_api: bool,
    api_key: Option<String>,
}

/// What the analysis concluded; confidence is in percent.
#[derive(Debug)]
pub struct PageAnalysis {
    pub page_type: String,
    pub recommended_action: String,
    pub confidence: u32,
    pub reasoning: String,
    pub elements_found: Vec<String>,
}

/// The page type the rules assign, over the lowercased address and
/// HTML.
pub open spec fn page_type_spec(ul: Seq<char>, hl: Seq<char>) -> Seq<char> {
    if contains_spec(ul, "product"@) || contains_spec(ul, "item"@) {
        "product_detail"@
    } else if contains_spec(ul, "search"@) || contains_spec(ul, "category"@) {
        "product_list"@
    } else if contains_spec(ul, "cart"@) {
        "shopping_cart"@
    } else if contains_spec(ul, "checkout"@) {
        "checkout"@
    } else if contains_spec(hl, "product"@) && contains_spec(hl, "price"@) {
        "product_detail"@
    } else if contains_spec(hl, "search-result"@) || contains_spec(hl, "product-list"@) {
        "product_list"@
    } else {
        "main_page"@
    }
}

/// The action the rules recommend for a page type.
pub open spec fn recommended_action_spec(pt: Seq<char>, hl: Seq<char>) -> Seq<char> {
    if pt == "product_detail"@ {
        if contains_spec(hl, "add to cart"@) || contains_spec(hl, "장바구니"@) {
            "extract_product_info"@
        } else {
            "scroll_for_more_info"@
        }
    } else if pt == "product_list"@ {
        if contains_spec(hl, "next"@) || contains_spec(hl, "다음"@) {
            "click_next_page"@
        } else {
            "extract_product_links"@
        }
    } else if pt == "main_page"@ {
        "navigate_to_categories"@
    } else {
        "extract_text"@
    }
}

/// The notable elements found in the lowercased HTML, in fixed order.
pub open spec fn elements_found_spec(hl: Seq<char>) -> Seq<Seq<char>> {
    (if contains_spec(hl, "price"@) {
        seq!["price_element"@]
    } else {
        Seq::<Seq<char>>::empty()
    }) + (if contains_spec(hl, "button"@) {
        seq!["interactive_button"@]
    } else {
        Seq::<Seq<char>>::empty()
    }) + (if contains_spec(hl, "form"@) {
        seq!["form_element"@]
    } else {
        Seq::<Seq<char>>::empty()
    }) + (if contains_spec(hl, "pagination"@) || contains_spec(hl, "페이지"@) {
        seq!["pagination"@]
    } else {
        Seq::<Seq<char>>::empty()
    })
}

/// The confidence the rules assign.
pub open spec fn confidence_spec(pt: Seq<char>, hl: Seq<char>) -> u32 {
    if pt == "product_detail"@ && contains_spec(hl, "price"@) {
        90u32
    } else if pt == "product_list"@ {
        80u32
    } else {
        60u32
    }
}

/// The analysis report line.
pub open spec fn reasoning_spec(pt: Seq<char>, count: int) -> Seq<char> {
    "페이지 타입: "@ + pt + ". URL 패턴과 HTML 요소를 기반으로 분석. 발견된 요소: "@
        + dec_spec(count) + "개"@
}

impl LLMService {
    pub closed spec fn uses_api(&self) -> bool {
        self.use_api
    }

    /// A service that will use the remote API exactly when a key is
    /// given.
    pub fn new(api_key: Option<String>) -> (r: Self)
        ensures
            r.uses_api() == (api_key is Some),
    {
        let use_api = api_key.is_some();
        LLMService { use_api, api_key }
    }

    /// Analyze a page.  The remote path currently falls back to the
    /// same rules, so the result is the rule-based analysis either way.
    pub fn analyze_page(&self, html: &str, url: &str) -> (r: Result<PageAnalysis, ErrorS>)
        ensures
            r matches Ok(a) && analysis_matches(a, url@, html@),
    {
        self.rule_based_analyze_page(html, url)
    }

    /// Recommend a browser action for a goal.  The remote path
    /// currently falls back to the same rules.
    pub fn recommend_action(&self, html: &str, goal: &str) -> (r: Result<String, ErrorS>)
        ensures
            r matches Ok(s) && s@ == recommend_for_goal_spec(lower_spec(html@), lower_spec(
                goal@,
            )),
    {
        self.rule_based_recommend_action(html, goal)
    }

    /// The selectors worth trying when extracting product data.
    pub fn extract_product_info(&self, _html: &str) -> (r: Result<Vec<String>, ErrorS>)
        ensures
            r matches Ok(v) && v@.len() == 8 && v@[0]@ == ".product-name"@ && v@[1]@
                == ".product-title"@ && v@[2]@ == ".price"@ && v@[3]@ == ".sale-price"@
                && v@[4]@ == ".original-price"@ && v@[5]@ == ".discount"@ && v@[6]@
                == ".product-image"@ && v@[7]@ == ".description"@,
    {
        let mut selectors: Vec<String> = Vec::new();
        selectors.push(String::from_str(".product-name"));
        selectors.push(String::from_str(".product-title"));
        selectors.push(String::from_str(".price"));
        selectors.push(String::from_str(".sale-price"));
        selectors.push(String::from_str(".original-price"));
        selectors.push(String::from_str(".discount"));
        selectors.push(String::from_str(".product-image"));
        selectors.push(String::from_str(".description"));
        Ok(selectors)
    }

    /// Classify the page from address and HTML keywords, list the
    /// elements found, and compute confidence and report text.
    pub fn rule_based_analyze_page(&self, html: &str, url: &str) -> (r: Result<
        PageAnalysis,
        ErrorS,
    >)
        ensures
            r matches Ok(a) && analysis_matches(a, url@, html@),
    {
        proof {
            reveal_strlit("product");
            reveal_strlit("item");
            reveal_strlit("search");
            reveal_strlit("category");
            reveal_strlit("cart");
            reveal_strlit("checkout");
            reveal_strlit("price");
            reveal_strlit("search-result");
            reveal_strlit("product-list");
            reveal_strlit("product_detail");
            reveal_strlit("product_list");
            reveal_strlit("shopping_cart");
            reveal_strlit("main_page");
            reveal_strlit("add to cart");
            reveal_strlit("장바구니");
            reveal_strlit("next");
            reveal_strlit("다음");
            reveal_strlit("button");
            reveal_strlit("form");
            reveal_strlit("pagination");
            reveal_strlit("페이지");
        }
        let hv = lower_vec(&chars_vec(html));
        let uv = lower_vec(&chars_vec(url));
        let ghost hl = lower_spec(html@);
        let ghost ul = lower_spec(url@);
        let hn = hv.len();
        let un = uv.len();
        proof {
            assert(hv@.subrange(0, hn as int) =~= hl);
            assert(uv@.subrange(0, un as int) =~= ul);
        }
        let page_type: String = if contains_at(&uv, 0, un, &chars_vec("product")) || contains_at(
            &uv,
            0,
            un,
            &chars_vec("item"),
        ) {
            String::from_str("product_detail")
        } else if contains_at(&uv, 0, un, &chars_vec("search")) || contains_at(
            &uv,
            0,
            un,
            &chars_vec("category"),
        ) {
            String::from_str("product_list")
        } else if contains_at(&uv, 0, un, &chars_vec("cart")) {
            String::from_str("shopping_cart")
        } else if contains_at(&uv, 0, un, &chars_vec("checkout")) {
            String::from_str("checkout")
        } else if contains_at(&hv, 0, hn, &chars_vec("product")) && contains_at(
            &hv,
            0,
            hn,
            &chars_vec("price"),
        ) {
            String::from_str("product_detail")
        } else if contains_at(&hv, 0, hn, &chars_vec("search-result")) || contains_at(
            &hv,
            0,
            hn,
            &chars_vec("product-list"),
        ) {
            String::from_str("product_list")
        } else {
            String::from_str("main_page")
        };
        let has_cart_words = contains_at(&hv, 0, hn, &chars_vec("add to cart")) || contains_at(
            &hv,
            0,
            hn,
            &chars_vec("장바구니"),
        );
        let has_next_words = contains_at(&hv, 0, hn, &chars_vec("next")) || contains_at(
            &hv,
            0,
            hn,
            &chars_vec("다음"),
        );
        let recommended_action: String = if crate::text::str_eq(
            page_type.as_str(),
            "product_detail",
        ) {
            if has_cart_words {
                String::from_str("extract_product_info")
            } else {
                String::from_str("scroll_for_more_info")
            }
        } else if crate::text::str_eq(page_type.as_str(), "product_list") {
            if has_next_words {
                String::from_str("click_next_page")
            } else {
                String::from_str("extract_product_links")
            }
        } else if crate::text::str_eq(page_type.as_str(), "main_page") {
            String::from_str("navigate_to_categories")
        } else {
            String::from_str("extract_text")
        };
        let has_price = contains_at(&hv, 0, hn, &chars_vec("price"));
        let mut elements_found: Vec<String> = Vec::new();
        if has_price {
            elements_found.push(String::from_str("price_element"));
        }
        if contains_at(&hv, 0, hn, &chars_vec("button")) {
            elements_found.push(String::from_str("interactive_button"));
        }
        if contains_at(&hv, 0, hn, &chars_vec("form")) {
            elements_found.push(String::from_str("form_element"));
        }
        if contains_at(&hv, 0, hn, &chars_vec("pagination")) || contains_at(
            &hv,
            0,
            hn,
            &chars_vec("페이지"),
        ) {
            elements_found.push(String::from_str("pagination"));
        }
        proof {
            assert(elements_found@.map_values(|s: String| s@) =~= elements_found_spec(hl));
        }
        let confidence: u32 = if crate::text::str_eq(page_type.as_str(), "product_detail")
            && has_price {
            90
        } else if crate::text::str_eq(page_type.as_str(), "product_list") {
            80
        } else {
            60
        };
        let mut reasoning = String::from_str("페이지 타입: ");
        reasoning.append(page_type.as_str());
        reasoning.append(". URL 패턴과 HTML 요소를 기반으로 분석. 발견된 요소: ");
        let count = dec_string(elements_found.len() as u64);
        reasoning.append(count.as_str());
        reasoning.append("개");
        Ok(
            PageAnalysis {
                page_type,
                recommended_action,
                confidence,
                reasoning,
                elements_found,
            },
        )
    }

    /// Recommend an action string from goal and page keywords.
    pub fn rule_based_recommend_action(&self, html: &str, goal: &str) -> (r: Result<
        String,
        ErrorS,
    >)
        ensures
            r matches Ok(s) && s@ == recommend_for_goal_spec(lower_spec(html@), lower_spec(
                goal@,
            )),
    {
        proof {
            reveal_strlit("product");
            reveal_strlit("상품");
            reveal_strlit("add to cart");
            reveal_strlit("장바구니");
            reveal_strlit("next");
            reveal_strlit("다음");
            reveal_strlit("search");
            reveal_strlit("검색");
            reveal_strlit("scroll");
            reveal_strlit("스크롤");
        }
        let hv = lower_vec(&chars_vec(html));
        let gv = lower_vec(&chars_vec(goal));
        let hn = hv.len();
        let gn = gv.len();
        proof {
            assert(hv@.subrange(0, hn as int) =~= lower_spec(html@));
            assert(gv@.subrange(0, gn as int) =~= lower_spec(goal@));
        }
        let action: &str = if contains_at(&gv, 0, gn, &chars_vec("product")) || contains_at(
            &gv,
            0,
            gn,
            &chars_vec("상품"),
        ) {
            if contains_at(&hv, 0, hn, &chars_vec("add to cart")) || contains_at(
                &hv,
                0,
                hn,
                &chars_vec("장바구니"),
            ) {
                "action: extract_text, selector: .product-info, reason: 상품 정보 추출"
            } else if contains_at(&hv, 0, hn, &chars_vec("next")) || contains_at(
                &hv,
                0,
                hn,
                &chars_vec("다음"),
            ) {
                "action: click, selector: .next-button, reason: 다음 페이지로 이동"
            } else {
                "action: scroll, direction: down, pixels: 500, reason: 더 많은 상품 정보 확인"
            }
        } else if contains_at(&gv, 0, gn, &chars_vec("search")) || contains_at(
            &gv,
            0,
            gn,
            &chars_vec("검색"),
        ) {
            "action: click, selector: .search-button, reason: 검색 실행"
        } else if contains_at(&gv, 0, gn, &chars_vec("scroll")) || contains_at(
            &gv,
            0,
            gn,
            &chars_vec("스크롤"),
        ) {
            "action: scroll, direction: down, pixels: 800, reason: 추가 콘텐츠 로드"
        } else {
            "action: extract_text, selector: body, reason: 페이지 정보 수집"
        };
        Ok(action.to_owned())
    }
}

/// Whether an analysis is the one the rules produce for this page.
pub open spec fn analysis_matches(a: PageAnalysis, url: Seq<char>, html: Seq<char>) -> bool {
    let ul = lower_spec(url);
    let hl = lower_spec(html);
    let pt = page_type_spec(ul, hl);
    &&& a.page_type@ == pt
    &&& a.recommended_action@ == recommended_action_spec(pt, hl)
    &&& a.confidence == confidence_spec(pt, hl)
    &&& a.elements_found@.map_values(|s: String| s@) == elements_found_spec(hl)
    &&& a.reasoning@ == reasoning_spec(pt, elements_found_spec(hl).len() as int)
}

/// The action string recommended for a goal over lowercased HTML.
pub open spec fn recommend_for_goal_spec(hl: Seq<char>, gl: Seq<char>) -> Seq<char> {
    if contains_spec(gl, "product"@) || contains_spec(gl, "상품"@) {
        if contains_spec(hl, "add to cart"@) || contains_spec(hl, "장바구니"@) {
            "action: extract_text, selector: .product-info, reason: 상품 정보 추출"@
        } else if contains_spec(hl, "next"@) || contains_spec(hl, "다음"@) {
            "action: click, selector: .next-button, reason: 다음 페이지로 이동"@
        } else {
            "action: scroll, direction: down, pixels: 500, reason: 더 많은 상품 정보 확인"@
        }
    } else if contains_spec(gl, "search"@) || contains_spec(gl, "검색"@) {
        "action: click, selector: .search-button, reason: 검색 실행"@
    } else if contains_spec(gl, "scroll"@) || contains_spec(gl, "스크롤"@) {
        "action: scroll, direction: down, pixels: 800, reason: 추가 콘텐츠 로드"@
    } else {
        "action: extract_text, selector: body, reason: 페이지 정보 수집"@
    }
}

/// The site-specific prompt block the oracle is primed with.
pub fn prompt_selector(site: &str) -> (r: String)
    ensures
        site@ == "쿠팡"@ ==> r@ == coupang_prompt_text(),
        site@ == "11번가"@ ==> r@ == eleven_st_prompt_text(),
        (site@ != "쿠팡"@ && site@ != "11번가"@) ==> r@ == "기본 프롬프트"@,
{
    proof {
        reveal_strlit("쿠팡");
        reveal_strlit("11번가");
        assert("쿠팡"@.len() == 2);
        assert("11번가"@.len() == 4);
    }
    if crate::text::str_eq(site, "쿠팡") {
        coupang_prompt().to_owned()
    } else if crate::text::str_eq(site, "11번가") {
        eleven_st_prompt().to_owned()
    } else {
        String::from_str("기본 프롬프트")
    }
}

/// The discount keywords and step-by-step guidance used for Coupang.
pub open spec fn coupang_prompt_text() -> Seq<char> {
    "쿠팡:\n할인: 판매자특가, 쿠폰가, 즉시할인, 타임딜, 오늘의발견, %할인, %OFF\n배송: 로켓배송, 무료배송, 당일배송, 새벽배송\n적립: 쿠팡캐시, 적립, %적립\n멤버십: 와우멤버십, 와우할인, 회원전용\n묶음: 대용량할인, 묶음배송, 세트상품, 1+1, 2+1\n행동 지침: 팝업 제거 후 할인 메뉴로 이동하고, 할인 정보를 발견하면 추출한다."@
}

fn coupang_prompt() -> (r: &'static str)
    ensures
        r@ == coupang_prompt_text(),
{
    "쿠팡:\n할인: 판매자특가, 쿠폰가, 즉시할인, 타임딜, 오늘의발견, %할인, %OFF\n배송: 로켓배송, 무료배송, 당일배송, 새벽배송\n적립: 쿠팡캐시, 적립, %적립\n멤버십: 와우멤버십, 와우할인, 회원전용\n묶음: 대용량할인, 묶음배송, 세트상품, 1+1, 2+1\n행동 지침: 팝업 제거 후 할인 메뉴로 이동하고, 할인 정보를 발견하면 추출한다."
}

/// The discount keywords used for the 11st marketplace.
pub open spec fn eleven_st_prompt_text() -> Seq<char> {
    "11번가:\n할인: 오늘특가, 타임특가, 11번가특가, 무료배송, 당일배송\n혜택: 포인트적립, 마일리지, 캐시백, 멤버십할인"@
}

fn eleven_st_prompt() -> (r: &'static str)
    ensures
        r@ == eleven_st_prompt_text(),
{
    "11번가:\n할인: 오늘특가, 타임특가, 11번가특가, 무료배송, 당일배송\n혜택: 포인트적립, 마일리지, 캐시백, 멤버십할인"
}

} // verus!
