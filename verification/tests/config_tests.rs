use crawl_agent::config::{Config, SiteConfig, SiteSelectors};
use crawl_agent::errors::CrawlerError;

#[test]
fn test_default_config() {
    let config = Config::default();
    assert_eq!(config.crawler.max_retries, 3);
    assert!(config.browser.headless);
    assert_eq!(config.logging.level, "info");
}

#[test]
fn test_config_validation() {
    let mut config = Config::default();
    config.database.url = String::new();
    assert!(config.validate().is_err());
}

fn site(domain: &str, enabled: bool, name_selectors: Vec<&str>) -> SiteConfig {
    SiteConfig {
        domain: domain.to_string(),
        enabled,
        rate_limit: 10,
        selectors: SiteSelectors {
            product_name: name_selectors.into_iter().map(|s| s.to_string()).collect(),
            price: vec![".price".to_string()],
            original_price: None,
            discount: None,
            image: vec!["img".to_string()],
            product_links: vec!["a".to_string()],
        },
    }
}

#[test]
fn validation_reports_each_broken_rule() {
    let mut c = Config::default();
    c.browser.timeout = 0;
    match c.validate() {
        Err(CrawlerError::Validation { field, .. }) => assert_eq!(field, "browser.timeout"),
        other => panic!("expected a validation error, got {:?}", other),
    }
    let mut c = Config::default();
    c.crawler.max_concurrent_tabs = 0;
    match c.validate() {
        Err(CrawlerError::Validation { field, .. }) => {
            assert_eq!(field, "crawler.max_concurrent_tabs")
        },
        other => panic!("expected a validation error, got {:?}", other),
    }
    let mut c = Config::default();
    c.llm.use_api = true;
    match c.validate() {
        Err(CrawlerError::Validation { field, .. }) => assert_eq!(field, "llm.api_key"),
        other => panic!("expected a validation error, got {:?}", other),
    }
    let mut c = Config::default();
    c.sites.push(("shop".to_string(), site("", true, vec![".name"])));
    assert!(c.validate().is_err());
    let mut c = Config::default();
    c.sites.push(("shop".to_string(), site("shop.example", true, vec![])));
    assert!(c.validate().is_err());
}

#[test]
fn valid_config_with_sites_passes() {
    let mut c = Config::default();
    c.sites.push(("shop".to_string(), site("shop.example", true, vec![".name"])));
    assert!(c.validate().is_ok());
}

#[test]
fn get_site_config_finds_by_name() {
    let mut c = Config::default();
    c.sites.push(("first".to_string(), site("first.example", true, vec![".n"])));
    c.sites.push(("second".to_string(), site("second.example", false, vec![".n"])));
    assert_eq!(c.get_site_config("second").unwrap().domain, "second.example");
    assert!(c.get_site_config("third").is_none());
}

#[test]
fn get_enabled_sites_lists_enabled_indices() {
    let mut c = Config::default();
    c.sites.push(("a".to_string(), site("a.example", true, vec![".n"])));
    c.sites.push(("b".to_string(), site("b.example", false, vec![".n"])));
    c.sites.push(("c".to_string(), site("c.example", true, vec![".n"])));
    let enabled = c.get_enabled_sites();
    assert_eq!(enabled, vec![0, 2]);
}
