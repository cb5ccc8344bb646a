use graph_networks_registry::{
    get_fallback_base_url, get_registry_base_url, resolve_url, set_base_urls, validate_version,
    BaseUrls, FetchError, NetworksRegistry, RegistryVersion, FALLBACK_BASE_URL, REGISTRY_BASE_URL,
    SCHEMA_VERSION,
};

#[test]
fn test_registry_urls() {
    // Test primary URL
    assert_eq!(
        RegistryVersion::Latest.get_primary_url(),
        format!("{}/TheGraphNetworksRegistry_v{}_x.json", get_registry_base_url(), SCHEMA_VERSION)
    );

    // Test fallback URL
    assert_eq!(
        RegistryVersion::Latest.get_fallback_url(),
        format!("{}/TheGraphNetworksRegistry_v{}_x.json", get_fallback_base_url(), SCHEMA_VERSION)
    );

    // Test exact version URLs
    let version = "v0.5.0";
    assert_eq!(
        RegistryVersion::Exact(version).get_primary_url(),
        format!("{}/TheGraphNetworksRegistry_v0_5_0.json", get_registry_base_url())
    );
    assert_eq!(
        RegistryVersion::Exact(version).get_fallback_url(),
        format!("{}/TheGraphNetworksRegistry_v0_5_0.json", get_fallback_base_url())
    );
}

#[test]
fn test_validate_version() {
    // Valid versions
    assert!(validate_version("0.5.0").is_ok());
    assert!(validate_version("0.5").is_ok());
    assert!(validate_version("10.5.2").is_ok());

    // Invalid versions
    assert!(matches!(validate_version("0.5.0.1"), Err(FetchError::InvalidVersionFormat(_))));
    assert!(matches!(validate_version("0.5-alpha"), Err(FetchError::InvalidVersionFormat(_))));
    assert!(matches!(validate_version("v0.5.0"), Err(FetchError::InvalidVersionFormat(_))));
    assert!(matches!(validate_version("0.5."), Err(FetchError::InvalidVersionFormat(_))));
    assert!(matches!(validate_version(".5.0"), Err(FetchError::InvalidVersionFormat(_))));
}

#[test]
fn version_parts_are_digits_of_any_length() {
    assert!(validate_version("4294967295.0").is_ok());
    assert!(validate_version("9999999999.0").is_ok());
    assert!(validate_version("0.99999999999999999999").is_ok());
    assert!(validate_version("+1.2").is_err());
    assert!(validate_version("1.-2").is_err());
    assert!(validate_version("1. 2").is_err());
    assert!(validate_version("").is_err());
    assert!(validate_version("5").is_err());
    assert!(validate_version("1..2").is_err());
    assert!(validate_version("007.1").is_ok());
}

#[test]
fn exact_version_dots_become_underscores() {
    assert_eq!(
        resolve_url("https://h", &RegistryVersion::Exact("v0.5.3")),
        "https://h/TheGraphNetworksRegistry_v0_5_3.json"
    );
    assert_eq!(
        resolve_url("b", &RegistryVersion::Exact("1..2")),
        "b/TheGraphNetworksRegistry_1__2.json"
    );
    assert_eq!(resolve_url("", &RegistryVersion::Exact("")), "/TheGraphNetworksRegistry_.json");
}

#[test]
fn latest_url_embeds_the_client_schema_version() {
    assert_eq!(SCHEMA_VERSION, "0_5");
    assert_eq!(
        resolve_url("https://h", &RegistryVersion::Latest),
        "https://h/TheGraphNetworksRegistry_v0_5_x.json"
    );
    assert_eq!(
        NetworksRegistry::get_latest_version_url(),
        "https://networks-registry.thegraph.com/TheGraphNetworksRegistry_v0_5_x.json"
    );
}

#[test]
fn resolving_twice_gives_the_same_url() {
    let v = RegistryVersion::Exact("v0.6.1");
    assert_eq!(resolve_url("https://a", &v), resolve_url("https://a", &v));
    assert_eq!(
        resolve_url("https://a", &RegistryVersion::Latest),
        resolve_url("https://a", &RegistryVersion::Latest)
    );
}

#[test]
fn exact_version_url_on_the_default_host() {
    assert_eq!(
        NetworksRegistry::get_exact_version_url("v0.5.0"),
        "https://networks-registry.thegraph.com/TheGraphNetworksRegistry_v0_5_0.json"
    );
    assert_eq!(RegistryVersion::Latest.get_url(), RegistryVersion::Latest.get_primary_url());
}

#[test]
fn base_urls_default_and_override() {
    let mut urls = BaseUrls::new();
    assert_eq!(urls.primary, REGISTRY_BASE_URL);
    assert_eq!(urls.fallback, FALLBACK_BASE_URL);
    set_base_urls(&mut urls, "http://127.0.0.1:1", "http://127.0.0.1:2");
    assert_eq!(urls.primary, "http://127.0.0.1:1");
    assert_eq!(urls.fallback, "http://127.0.0.1:2");
}
