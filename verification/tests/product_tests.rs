use crawl_agent::product::Product;

#[test]
fn new_product_gets_an_identifier() {
    let p = Product::new(
        "Monitor".to_string(),
        "https://shop.example/1".to_string(),
        "coupang".to_string(),
    );
    assert_eq!(p.id.as_ref().map(|s| s.len()), Some(36));
    assert_eq!(p.product_name, "Monitor");
    assert_eq!(p.site, "coupang");
    assert_eq!(p.created_at_ms, p.updated_at_ms);
}

#[test]
fn two_new_products_get_different_identifiers() {
    let a = Product::new("A".to_string(), "u".to_string(), "s".to_string());
    let b = Product::new("B".to_string(), "u".to_string(), "s".to_string());
    assert_ne!(a.id, b.id);
}

#[test]
fn discount_rate_is_rounded_percent() {
    let mut p = Product::empty();
    p.current_price = Some(75);
    p.original_price = Some(100);
    p.calculate_discount_rate();
    assert_eq!(p.discount_rate, Some(25));

    let mut p = Product::empty();
    p.current_price = Some(66);
    p.original_price = Some(100);
    p.calculate_discount_rate();
    assert_eq!(p.discount_rate, Some(34));

    // One third off rounds to the nearest whole percent.
    let mut p = Product::empty();
    p.current_price = Some(2);
    p.original_price = Some(3);
    p.calculate_discount_rate();
    assert_eq!(p.discount_rate, Some(33));
}

#[test]
fn discount_rate_negative_when_price_rose() {
    let mut p = Product::empty();
    p.current_price = Some(150);
    p.original_price = Some(100);
    p.calculate_discount_rate();
    assert_eq!(p.discount_rate, Some(-50));
}

#[test]
fn discount_rate_needs_both_prices() {
    let mut p = Product::empty();
    p.current_price = Some(10);
    p.calculate_discount_rate();
    assert!(p.discount_rate.is_none());
}

#[test]
fn update_price_recomputes_and_stamps() {
    let mut p = Product::empty();
    p.update_price(80, Some(100), 42_000);
    assert_eq!(p.current_price, Some(80));
    assert_eq!(p.original_price, Some(100));
    assert_eq!(p.discount_rate, Some(20));
    assert_eq!(p.updated_at_ms, 42_000);
}

#[test]
fn add_benefit_deduplicates() {
    let mut p = Product::empty();
    p.add_benefit("free shipping".to_string());
    p.add_benefit("coupon".to_string());
    p.add_benefit("free shipping".to_string());
    assert_eq!(p.additional_benefits, vec!["free shipping".to_string(), "coupon".to_string()]);
}

#[test]
fn rocket_delivery_flag() {
    let mut p = Product::empty();
    assert!(!p.is_rocket_delivery);
    p.set_rocket_delivery(true);
    assert!(p.is_rocket_delivery);
}
