use scx_recipes::config::AppConfig;
use scx_recipes::location::amap_config::{
    default_cache_expire_minutes, get_api_key, get_base_url, get_default_config, get_timeout,
    is_api_logging_enabled, is_cache_enabled, reload_config, validate_config, CacheConfig,
};
use scx_recipes::location::delivery_service::DeliveryServiceFinder;
use scx_recipes::location::ingredient_store::IngredientStoreFinder;
use scx_recipes::location::restaurant_finder::RestaurantFinder;
use scx_recipes::location::{DataSource, LocationService};
use scx_recipes::AppError;

#[test]
fn test_default_config() {
    let config = get_default_config();
    assert_eq!(config.amap.base_url, "https://restapi.amap.com");
    assert_eq!(config.amap.timeout, 10);
    assert_eq!(config.poi_search.default_radius, 1000);
}

#[test]
fn test_config_validation() {
    let mut config = get_default_config();

    config.amap.web_api_key = String::new();
    assert!(validate_config(&config).is_err());

    config.amap.web_api_key = "test_key".to_string();
    config.poi_search.max_results = 0;
    assert!(validate_config(&config).is_err());

    config.poi_search.max_results = 101;
    assert!(validate_config(&config).is_err());

    config.poi_search.max_results = 20;
    assert!(validate_config(&config).is_ok());
}

#[test]
fn test_cache_config_defaults() {
    let cache_config = CacheConfig::default();
    assert!(!cache_config.enable_cache);
    assert_eq!(cache_config.cache_expire_minutes, 30);
}

#[test]
fn test_client_creation_without_api_key() {
    let config = get_default_config();
    assert!(get_api_key(&config).is_empty());
    assert!(validate_config(&config).is_err());
}

#[test]
fn default_config_holds_every_documented_value() {
    let c = get_default_config();
    assert_eq!(c.amap.web_api_key, "");
    assert_eq!(c.amap.js_api_key, None);
    assert_eq!(c.amap.default_city, "110000");
    assert_eq!(c.location.accuracy_threshold, 100_000);
    assert_eq!(c.location.fallback_ip_service, "http://ip-api.com/json");
    assert!(c.location.enable_cache);
    assert_eq!(c.location.cache_expire_minutes, 30);
    assert_eq!(c.poi_search.max_results, 20);
    assert_eq!(c.poi_search.min_rating, 3000);
    assert_eq!(
        c.poi_search.restaurant_categories,
        vec!["050000", "050100", "050200", "050300", "050400"]
    );
    assert_eq!(c.poi_search.shopping_categories, vec!["060000", "060100", "060200", "060300"]);
    assert_eq!(c.delivery.max_delivery_distance, 5000);
    assert_eq!(c.delivery.max_delivery_time, 60);
    assert_eq!(c.delivery.min_order_amount, 0);
    assert_eq!(c.rate_limit.requests_per_second, 10);
    assert_eq!(c.rate_limit.requests_per_day, 5000);
    assert!(c.logging.enable_api_logging);
    assert!(!c.logging.log_request_details);
    assert_eq!(default_cache_expire_minutes(), 30);
}

#[test]
fn config_complaints_come_in_order() {
    let mut c = get_default_config();
    c.amap.timeout = 0;
    c.poi_search.max_results = 0;
    let text = |r: Result<(), AppError>| match r {
        Err(AppError::Validation(m)) => m,
        other => panic!("expected a validation failure, got {:?}", other),
    };
    assert_eq!(text(validate_config(&c)), "Amap web_api_key is required");
    c.amap.web_api_key = "k".to_string();
    assert_eq!(text(validate_config(&c)), "Timeout must be greater than 0");
    c.amap.timeout = 1;
    assert_eq!(text(validate_config(&c)), "max_results must be between 1 and 100");
    c.poi_search.max_results = 1;
    assert!(validate_config(&c).is_ok());
    c.poi_search.max_results = 100;
    assert!(validate_config(&c).is_ok());
}

#[test]
fn config_getters_read_the_settings() {
    let mut c = get_default_config();
    c.amap.web_api_key = "abc".to_string();
    c.amap.timeout = 7;
    c.cache.enable_cache = true;
    c.logging.enable_api_logging = false;
    assert_eq!(get_api_key(&c), "abc");
    assert_eq!(get_base_url(&c), "https://restapi.amap.com");
    assert_eq!(get_timeout(&c), 7);
    assert!(is_cache_enabled(&c));
    assert!(!is_api_logging_enabled(&c));
    assert!(reload_config().is_ok());
}

#[test]
fn location_service_falls_back_on_sample_data() {
    let plain = LocationService::new();
    assert_eq!(*plain.get_data_source(), DataSource::Demo);
    assert!(!plain.is_amap_available());

    let ready = LocationService::new_with_source(DataSource::AmapAPI, true);
    assert_eq!(*ready.get_data_source(), DataSource::AmapAPI);
    assert!(ready.is_amap_available());

    let failed = LocationService::new_with_source(DataSource::AmapAPI, false);
    assert_eq!(*failed.get_data_source(), DataSource::Demo);
    assert!(!failed.is_amap_available());

    let demo = LocationService::new_with_source(DataSource::Demo, true);
    assert_eq!(*demo.get_data_source(), DataSource::Demo);
    assert!(!demo.is_amap_available());
}

#[test]
fn finders_are_made_from_a_location_service() {
    let _a = DeliveryServiceFinder::new(LocationService::new());
    let _b = IngredientStoreFinder::new(LocationService::new());
    let _c = RestaurantFinder::new(LocationService::new());
}

#[test]
fn app_config_update_changes_what_is_given() {
    let mut c = AppConfig {
        version: "1.0.0".to_string(),
        storage_path: "store".to_string(),
        privacy_mode: false,
        theme: "system".to_string(),
    };
    c.update(None, None);
    assert!(!c.privacy_mode);
    assert_eq!(c.theme, "system");
    c.update(Some(true), None);
    assert!(c.privacy_mode);
    assert_eq!(c.theme, "system");
    c.update(None, Some("dark".to_string()));
    assert!(c.privacy_mode);
    assert_eq!(c.theme, "dark");
    assert_eq!(c.version, "1.0.0");
    assert_eq!(c.storage_path, "store");
}

#[test]
fn app_config_files_lie_in_the_storage_directory() {
    let c = AppConfig {
        version: "1.0.0".to_string(),
        storage_path: "store".to_string(),
        privacy_mode: false,
        theme: "system".to_string(),
    };
    let inside = |p: String, name: &str| {
        std::path::Path::new(&p) == std::path::Path::new("store").join(name)
    };
    assert!(inside(c.get_db_path(), "data.db"));
    assert!(inside(c.get_config_file_path(), "config.json"));
    assert!(inside(c.get_cache_dir(), "cache"));
}
