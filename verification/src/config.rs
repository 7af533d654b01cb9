//! Configuration of the crawler: the nested settings structs, the
//! documented defaults, and startup validation.  Reading and writing
//! config files and the environment is the application's work; the
//! rules that make a configuration acceptable live here.

use vstd::prelude::*;
use vstd::string::*;
use crate::errors::CrawlerError;

verus! {

#[derive(Debug)]
pub struct DatabaseConfig {
    pub url: String,
    pub max_connections: u32,
    pub timeout: u64,
}

#[derive(Debug)]
pub struct WindowSize {
    pub width: u32,
    pub height: u32,
}

#[derive(Debug)]
pub struct BrowserConfig {
    pub headless: bool,
    pub timeout: u64,
    pub user_agent: String,
    pub window_size: WindowSize,
    pub disable_images: bool,
    pub disable_javascript: bool,
}

#[derive(Debug)]
pub struct CrawlerConfig {
    pub max_retries: u32,
    pub delay_between_requests: u64,
    pub max_concurrent_tabs: usize,
    pub request_timeout: u64,
    pub rate_limit_per_minute: u32,
}

/// Oracle backend settings.  The sampling temperature is a float and
/// lives with the inference backend in the application; the rules here
/// never read it.
#[derive(Debug)]
pub struct LLMConfig {
    pub use_api: bool,
    pub api_provider: String,
    pub api_key: String,
    pub max_tokens: u32,
}

#[derive(Debug)]
pub struct LoggingConfig {
    pub level: String,
    pub file: String,
    pub console: bool,
    pub json_format: bool,
}

#[derive(Debug)]
pub struct SiteSelectors {
    pub product_name: Vec<String>,
    pub price: Vec<String>,
    pub original_price: Option<Vec<String>>,
    pub discount: Option<Vec<String>>,
    pub image: Vec<String>,
    pub product_links: Vec<String>,
}

#[derive(Debug)]
pub struct SiteConfig {
    pub domain: String,
    pub enabled: bool,
    pub rate_limit: u32,
    pub selectors: SiteSelectors,
}

#[derive(Debug)]
pub struct MonitoringConfig {
    pub enabled: bool,
    pub metrics_interval: u64,
    pub health_check_interval: u64,
    pub memory_threshold_mb: u64,
    pub cpu_threshold_percent: u32,
}

/// The whole configuration; sites are kept in insertion order under
/// their unique names.
#[derive(Debug)]
pub struct Config {
    pub database: DatabaseConfig,
    pub browser: BrowserConfig,
    pub crawler: CrawlerConfig,
    pub llm: LLMConfig,
    pub logging: LoggingConfig,
    pub sites: Vec<(String, SiteConfig)>,
    pub monitoring: MonitoringConfig,
}

impl Config {
    /// (name, domain, enabled, product-name selector count) per site.
    pub open spec fn sites_model(&self) -> Seq<(Seq<char>, Seq<char>, bool, int)> {
        self.sites@.map_values(
            |e: (String, SiteConfig)|
                (e.0@, e.1.domain@, e.1.enabled, e.1.selectors.product_name@.len() as int),
        )
    }

    /// Every rule that `validate` enforces.
    pub open spec fn valid_spec(&self) -> bool {
        &&& self.database.url@.len() > 0
        &&& self.browser.timeout > 0
        &&& self.crawler.max_concurrent_tabs > 0
        &&& (self.llm.use_api ==> self.llm.api_key@.len() > 0)
        &&& forall|i: int|
            0 <= i < self.sites_model().len() ==> (#[trigger] self.sites_model()[i]).1.len() > 0
                && self.sites_model()[i].3 > 0
    }

    /// The documented default configuration.
    pub fn default_config() -> (r: Self)
        ensures
            r.database.url@ == "postgresql://localhost/price_tracker"@,
            r.database.max_connections == 10,
            r.database.timeout == 30,
            r.browser.headless == true,
            r.browser.timeout == 30,
            r.browser.window_size.width == 1920,
            r.browser.window_size.height == 1080,
            r.browser.disable_images == false,
            r.browser.disable_javascript == false,
            r.crawler.max_retries == 3,
            r.crawler.delay_between_requests == 1000,
            r.crawler.max_concurrent_tabs == 5,
            r.crawler.request_timeout == 30,
            r.crawler.rate_limit_per_minute == 60,
            r.llm.use_api == false,
            r.llm.api_provider@ == "openai"@,
            r.llm.api_key@.len() == 0,
            r.llm.max_tokens == 1000,
            r.logging.level@ == "info"@,
            r.logging.file@ == "crawler.log"@,
            r.logging.console == true,
            r.logging.json_format == false,
            r.sites@.len() == 0,
            r.monitoring.enabled == true,
            r.monitoring.metrics_interval == 60,
            r.monitoring.health_check_interval == 300,
            r.monitoring.memory_threshold_mb == 1000,
            r.monitoring.cpu_threshold_percent == 80,
            r.valid_spec(),
    {
        proof {
            reveal_strlit("postgresql://localhost/price_tracker");
        }
        let c = Config {
            database: DatabaseConfig {
                url: String::from_str("postgresql://localhost/price_tracker"),
                max_connections: 10,
                timeout: 30,
            },
            browser: BrowserConfig {
                headless: true,
                timeout: 30,
                user_agent: String::from_str(
                    "Mozilla/5.0 (Windows NT 10.0; Win64; x64) AppleWebKit/537.36",
                ),
                window_size: WindowSize { width: 1920, height: 1080 },
                disable_images: false,
                disable_javascript: false,
            },
            crawler: CrawlerConfig {
                max_retries: 3,
                delay_between_requests: 1000,
                max_concurrent_tabs: 5,
                request_timeout: 30,
                rate_limit_per_minute: 60,
            },
            llm: LLMConfig {
                use_api: false,
                api_provider: String::from_str("openai"),
                api_key: String::new(),
                max_tokens: 1000,
            },
            logging: LoggingConfig {
                level: String::from_str("info"),
                file: String::from_str("crawler.log"),
                console: true,
                json_format: false,
            },
            sites: Vec::new(),
            monitoring: MonitoringConfig {
                enabled: true,
                metrics_interval: 60,
                health_check_interval: 300,
                memory_threshold_mb: 1000,
                cpu_threshold_percent: 80,
            },
        };
        c
    }

    /// Startup validation: `Ok` exactly when every rule holds; the
    /// scalar rules are checked in order and report their field, and a
    /// bad site reports a validation error too.
    pub fn validate(&self) -> (r: Result<(), CrawlerError>)
        ensures
            r is Ok <==> self.valid_spec(),
            self.database.url@.len() == 0 ==> (r matches Err(e)
                && e matches CrawlerError::Validation { field, .. } && field@
                == "database.url"@),
            (self.database.url@.len() > 0 && self.browser.timeout == 0) ==> (r matches Err(e)
                && e matches CrawlerError::Validation { field, .. } && field@
                == "browser.timeout"@),
            (self.database.url@.len() > 0 && self.browser.timeout > 0
                && self.crawler.max_concurrent_tabs == 0) ==> (r matches Err(e)
                && e matches CrawlerError::Validation { field, .. } && field@
                == "crawler.max_concurrent_tabs"@),
            (self.database.url@.len() > 0 && self.browser.timeout > 0
                && self.crawler.max_concurrent_tabs > 0 && self.llm.use_api
                && self.llm.api_key@.len() == 0) ==> (r matches Err(e)
                && e matches CrawlerError::Validation { field, .. } && field@
                == "llm.api_key"@),
            r is Err ==> (r matches Err(e) && e matches CrawlerError::Validation { .. }),
    {
        if self.database.url.as_str().is_empty() {
            return Err(
                CrawlerError::validation(
                    String::from_str("database.url"),
                    String::from_str("Database URL cannot be empty"),
                ),
            );
        }
        if self.browser.timeout == 0 {
            return Err(
                CrawlerError::validation(
                    String::from_str("browser.timeout"),
                    String::from_str("Browser timeout must be greater than 0"),
                ),
            );
        }
        if self.crawler.max_concurrent_tabs == 0 {
            return Err(
                CrawlerError::validation(
                    String::from_str("crawler.max_concurrent_tabs"),
                    String::from_str("Max concurrent tabs must be greater than 0"),
                ),
            );
        }
        if self.llm.use_api && self.llm.api_key.as_str().is_empty() {
            return Err(
                CrawlerError::validation(
                    String::from_str("llm.api_key"),
                    String::from_str("API key is required when use_api is true"),
                ),
            );
        }
        let mut i: usize = 0;
        while i < self.sites.len()
            invariant
                0 <= i <= self.sites@.len(),
                self.database.url@.len() > 0,
                self.browser.timeout > 0,
                self.crawler.max_concurrent_tabs > 0,
                self.llm.use_api ==> self.llm.api_key@.len() > 0,
                forall|j: int|
                    0 <= j < i ==> (#[trigger] self.sites_model()[j]).1.len() > 0
                        && self.sites_model()[j].3 > 0,
            decreases self.sites@.len() - i,
        {
            if self.sites[i].1.domain.as_str().is_empty() {
                proof {
                    assert((self.sites_model()[i as int]).1.len() == 0);
                }
                return Err(
                    CrawlerError::validation(
                        String::from_str("sites.domain"),
                        String::from_str("Site domain cannot be empty"),
                    ),
                );
            }
            if self.sites[i].1.selectors.product_name.len() == 0 {
                proof {
                    assert((self.sites_model()[i as int]).3 == 0);
                }
                return Err(
                    CrawlerError::validation(
                        String::from_str("sites.selectors.product_name"),
                        String::from_str("Product name selectors cannot be empty"),
                    ),
                );
            }
            i = i + 1;
        }
        Ok(())
    }

    /// The configuration of the named site, if present (first match).
    pub fn get_site_config(&self, site_name: &str) -> (r: Option<&SiteConfig>)
        ensures
            match r {
                Some(s) => exists|i: int|
                    0 <= i < self.sites@.len() && (#[trigger] self.sites@[i]).0@ == site_name@
                        && s == &self.sites@[i].1,
                None => forall|i: int|
                    0 <= i < self.sites@.len() ==> (#[trigger] self.sites@[i]).0@ != site_name@,
            },
    {
        let mut i: usize = 0;
        while i < self.sites.len()
            invariant
                0 <= i <= self.sites@.len(),
                forall|j: int| 0 <= j < i ==> (#[trigger] self.sites@[j]).0@ != site_name@,
            decreases self.sites@.len() - i,
        {
            if crate::text::str_eq(self.sites[i].0.as_str(), site_name) {
                return Some(&self.sites[i].1);
            }
            i = i + 1;
        }
        None
    }

    /// The indices of the enabled sites, in configuration order.
    pub fn get_enabled_sites(&self) -> (r: Vec<usize>)
        ensures
            forall|k: int|
                0 <= k < r@.len() ==> 0 <= #[trigger] r@[k] < self.sites@.len() && self.sites@[
                    r@[k] as int
                ].1.enabled,
            forall|i: int|
                0 <= i < self.sites@.len() && (#[trigger] self.sites@[i]).1.enabled
                    ==> r@.contains(i as usize),
            forall|k1: int, k2: int| 0 <= k1 < k2 < r@.len() ==> r@[k1] < r@[k2],
    {
        let mut out: Vec<usize> = Vec::new();
        let mut i: usize = 0;
        while i < self.sites.len()
            invariant
                0 <= i <= self.sites@.len(),
                forall|k: int|
                    0 <= k < out@.len() ==> 0 <= #[trigger] out@[k] < i && self.sites@[
                        out@[k] as int
                    ].1.enabled,
                forall|j: int|
                    0 <= j < i && (#[trigger] self.sites@[j]).1.enabled ==> out@.contains(
                        j as usize,
                    ),
                forall|k1: int, k2: int| 0 <= k1 < k2 < out@.len() ==> out@[k1] < out@[k2],
            decreases self.sites@.len() - i,
        {
            let ghost prev = out@;
            if self.sites[i].1.enabled {
                out.push(i);
            }
            proof {
                assert forall|j: int|
                    0 <= j < i + 1 && (#[trigger] self.sites@[j]).1.enabled implies out@.contains(
                    j as usize,
                ) by {
                    if j < i as int {
                        let k = choose|k: int| 0 <= k < prev.len() && prev[k] == j as usize;
                        assert(out@[k] == j as usize);
                    } else {
                        assert(out@[out@.len() - 1] == i);
                    }
                }
            }
            i = i + 1;
        }
        out
    }
}

impl Default for Config {
    /// The documented default configuration.
    fn default() -> (r: Self)
        ensures
            r.crawler.max_retries == 3,
            r.browser.headless == true,
            r.logging.level@ == "info"@,
            r.database.url@ == "postgresql://localhost/price_tracker"@,
            r.crawler.max_concurrent_tabs == 5,
            r.llm.use_api == false,
            r.sites@.len() == 0,
            r.valid_spec(),
    {
        Config::default_config()
    }
}

} // verus!
