//! The settings of the map service. Distances are in metres, times in
//! seconds or minutes as the field says, and fractional settings in
//! thousandths.

use vstd::prelude::*;
use vstd::string::*;
use crate::AppError;
use crate::AppResult;
use crate::text::texts;

verus! {

/// All settings of the map service.
#[derive(Debug, Clone)]
pub struct AmapConfig {
    pub amap: AmapApiConfig,
    pub location: LocationConfig,
    pub poi_search: PoiSearchConfig,
    pub delivery: DeliveryConfig,
    pub rate_limit: RateLimitConfig,
    pub logging: LoggingConfig,
    pub cache: CacheConfig,
}

/// How the map service is reached; `timeout` is in seconds.
#[derive(Debug, Clone)]
pub struct AmapApiConfig {
    pub web_api_key: String,
    pub js_api_key: Option<String>,
    pub base_url: String,
    pub timeout: u64,
    pub default_city: String,
}

/// How positions are looked up; `accuracy_threshold` is in thousandths of a
/// metre.
#[derive(Debug, Clone)]
pub struct LocationConfig {
    pub accuracy_threshold: u64,
    pub fallback_ip_service: String,
    pub enable_cache: bool,
    pub cache_expire_minutes: u64,
}

/// How places are searched; `min_rating` is in thousandths of a star.
#[derive(Debug, Clone)]
pub struct PoiSearchConfig {
    pub default_radius: u32,
    pub max_results: u32,
    pub min_rating: u32,
    pub restaurant_categories: Vec<String>,
    pub shopping_categories: Vec<String>,
}

/// The limits of a delivery; `min_order_amount` is in thousandths.
#[derive(Debug, Clone, Copy, PartialEq, Eq, Structural)]
pub struct DeliveryConfig {
    pub max_delivery_distance: u32,
    pub max_delivery_time: u32,
    pub min_order_amount: u32,
}

/// How often the map service may be called.
#[derive(Debug, Clone, Copy, PartialEq, Eq, Structural)]
pub struct RateLimitConfig {
    pub requests_per_second: u32,
    pub requests_per_day: u32,
}

/// What is logged of the calls to the map service.
#[derive(Debug, Clone, Copy, PartialEq, Eq, Structural)]
pub struct LoggingConfig {
    pub enable_api_logging: bool,
    pub log_request_details: bool,
}

/// Whether answers are kept, and for how long.
#[derive(Debug, Clone, Copy, PartialEq, Eq, Structural)]
pub struct CacheConfig {
    pub enable_cache: bool,
    pub cache_expire_minutes: u64,
}

/// The time that a kept answer stays good for where no other is set.
pub fn default_cache_expire_minutes() -> (minutes: u64)
    ensures
        minutes == 30,
{
    30
}

impl Default for CacheConfig {
    /// No cache, and half an hour for what would be kept.
    fn default() -> (cache: CacheConfig)
        ensures
            cache == (CacheConfig { enable_cache: false, cache_expire_minutes: 30 }),
    {
        CacheConfig { enable_cache: false, cache_expire_minutes: 30 }
    }
}

/// What the settings must meet to be used: a key for the service, a
/// timeout, and a number of results from 1 to 100.
pub open spec fn is_usable(config: &AmapConfig) -> bool {
    &&& config.amap.web_api_key@.len() > 0
    &&& config.amap.timeout > 0
    &&& 1 <= config.poi_search.max_results <= 100
}

/// Whether `msg` reports the first rule that the settings break.
pub open spec fn is_complaint(config: &AmapConfig, msg: Seq<char>) -> bool {
    if config.amap.web_api_key@.len() == 0 {
        msg == "Amap web_api_key is required"@
    } else if config.amap.timeout == 0 {
        msg == "Timeout must be greater than 0"@
    } else if !(1 <= config.poi_search.max_results <= 100) {
        msg == "max_results must be between 1 and 100"@
    } else {
        false
    }
}

/// Accepts the settings exactly when they can be used; otherwise the error
/// is a validation failure that names the first broken rule.
pub fn validate_config(config: &AmapConfig) -> (r: AppResult<()>)
    ensures
        r is Ok <==> is_usable(config),
        r matches Err(e) ==> e is Validation && is_complaint(config, e.detail()),
{
    if config.amap.web_api_key.as_str().is_empty() {
        return Err(AppError::validation("Amap web_api_key is required"));
    }
    if config.amap.timeout == 0 {
        return Err(AppError::validation("Timeout must be greater than 0"));
    }
    if config.poi_search.max_results == 0 || config.poi_search.max_results > 100 {
        return Err(AppError::validation("max_results must be between 1 and 100"));
    }
    Ok(())
}

/// The category codes of restaurants in the settings that apply where none
/// are given.
pub open spec fn default_restaurant_categories() -> Seq<Seq<char>> {
    seq!["050000"@, "050100"@, "050200"@, "050300"@, "050400"@]
}

/// The category codes of shops in the settings that apply where none are
/// given.
pub open spec fn default_shopping_categories() -> Seq<Seq<char>> {
    seq!["060000"@, "060100"@, "060200"@, "060300"@]
}

/// The settings that apply where none are given. They hold no key, so they
/// cannot be used to call the map service.
pub fn get_default_config() -> (config: AmapConfig)
    ensures
        config.amap.web_api_key@.len() == 0,
        config.amap.js_api_key is None,
        config.amap.base_url@ == "https://restapi.amap.com"@,
        config.amap.timeout == 10,
        config.amap.default_city@ == "110000"@,
        config.location.accuracy_threshold == 100_000,
        config.location.fallback_ip_service@ == "http://ip-api.com/json"@,
        config.location.enable_cache,
        config.location.cache_expire_minutes == 30,
        config.poi_search.default_radius == 1000,
        config.poi_search.max_results == 20,
        config.poi_search.min_rating == 3000,
        texts(config.poi_search.restaurant_categories@) == default_restaurant_categories(),
        texts(config.poi_search.shopping_categories@) == default_shopping_categories(),
        config.delivery == (DeliveryConfig {
            max_delivery_distance: 5000,
            max_delivery_time: 60,
            min_order_amount: 0,
        }),
        config.rate_limit == (RateLimitConfig { requests_per_second: 10, requests_per_day: 5000 }),
        config.logging == (LoggingConfig { enable_api_logging: true, log_request_details: false }),
        config.cache == (CacheConfig { enable_cache: false, cache_expire_minutes: 30 }),
        !is_usable(&config),
{
    let mut restaurant_categories: Vec<String> = Vec::new();
    restaurant_categories.push("050000".to_owned());
    restaurant_categories.push("050100".to_owned());
    restaurant_categories.push("050200".to_owned());
    restaurant_categories.push("050300".to_owned());
    restaurant_categories.push("050400".to_owned());
    let mut shopping_categories: Vec<String> = Vec::new();
    shopping_categories.push("060000".to_owned());
    shopping_categories.push("060100".to_owned());
    shopping_categories.push("060200".to_owned());
    shopping_categories.push("060300".to_owned());
    assert(texts(restaurant_categories@) =~= default_restaurant_categories());
    assert(texts(shopping_categories@) =~= default_shopping_categories());
    AmapConfig {
        amap: AmapApiConfig {
            web_api_key: String::new(),
            js_api_key: None,
            base_url: "https://restapi.amap.com".to_owned(),
            timeout: 10,
            default_city: "110000".to_owned(),
        },
        location: LocationConfig {
            accuracy_threshold: 100_000,
            fallback_ip_service: "http://ip-api.com/json".to_owned(),
            enable_cache: true,
            cache_expire_minutes: default_cache_expire_minutes(),
        },
        poi_search: PoiSearchConfig {
            default_radius: 1000,
            max_results: 20,
            min_rating: 3000,
            restaurant_categories,
            shopping_categories,
        },
        delivery: DeliveryConfig {
            max_delivery_distance: 5000,
            max_delivery_time: 60,
            min_order_amount: 0,
        },
        rate_limit: RateLimitConfig { requests_per_second: 10, requests_per_day: 5000 },
        logging: LoggingConfig { enable_api_logging: true, log_request_details: false },
        cache: CacheConfig::default(),
    }
}

/// Settings are read once, when the application starts: to read them again
/// the application is started again. The call changes nothing and succeeds.
pub fn reload_config() -> (r: AppResult<()>)
    ensures
        r is Ok,
{
    Ok(())
}

/// The key for the map service.
pub fn get_api_key(config: &AmapConfig) -> (key: &str)
    ensures
        key@ == config.amap.web_api_key@,
{
    config.amap.web_api_key.as_str()
}

/// The address of the map service.
pub fn get_base_url(config: &AmapConfig) -> (url: &str)
    ensures
        url@ == config.amap.base_url@,
{
    config.amap.base_url.as_str()
}

/// The time allowed for a call to the map service, in seconds.
pub fn get_timeout(config: &AmapConfig) -> (seconds: u64)
    ensures
        seconds == config.amap.timeout,
{
    config.amap.timeout
}

/// Tells whether answers are kept.
pub fn is_cache_enabled(config: &AmapConfig) -> (r: bool)
    ensures
        r == config.cache.enable_cache,
{
    config.cache.enable_cache
}

/// Tells whether calls to the map service are logged.
pub fn is_api_logging_enabled(config: &AmapConfig) -> (r: bool)
    ensures
        r == config.logging.enable_api_logging,
{
    config.logging.enable_api_logging
}

} // verus!
