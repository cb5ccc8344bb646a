use graph_networks_registry::{
    registry_from_response, set_base_urls, BaseUrls, Error, FetchAction, FetchError, FetchState,
    NetworksRegistry, ParseError, RegistryFetch, RegistryVersion, Response, SCHEMA_VERSION,
};

const REGISTRY_JSON: &str = r#"{
        "$schema": "https://networks-registry.thegraph.com/TheGraphNetworksRegistrySchema_vx_x.json",
        "version": "x.x.x",
        "title": "Test Registry",
        "description": "Test Registry",
        "updatedAt": "2025-01-01T00:00:00Z",
        "networks": [
            {
                "id": "mainnet",
                "fullName": "Ethereum Mainnet",
                "shortName": "Ethereum",
                "caip2Id": "eip155:1",
                "networkType": "mainnet",
                "aliases": ["ethereum", "eth"],
                "issuanceRewards": true,
                "services": {}
            }
        ]
    }"#;

fn answer(status: u16, body: &str) -> Response {
    Response::Received { status, body: body.to_string() }
}

/// Runs a fetch against two simulated hosts; gives the result and the URLs asked, in order.
fn run(
    version: RegistryVersion,
    urls: &BaseUrls,
    primary: Response,
    fallback: Response,
) -> (Result<NetworksRegistry, Error>, Vec<String>) {
    let (mut fetch, mut action) = RegistryFetch::start(&version, urls);
    let mut primary = Some(primary);
    let mut fallback = Some(fallback);
    let mut asked = Vec::new();
    loop {
        match action {
            FetchAction::Get(url) => {
                let resp = if url == fetch.primary_url {
                    primary.take().expect("registry host asked twice")
                } else {
                    assert_eq!(url, fetch.fallback_url);
                    fallback.take().expect("mirror asked twice")
                };
                asked.push(url);
                action = fetch.advance(registry_from_response(resp));
            }
            FetchAction::Finish(r) => {
                assert!(matches!(fetch.state, FetchState::Finished));
                return (r, asked);
            }
        }
    }
}

fn mock_urls() -> BaseUrls {
    let mut urls = BaseUrls::new();
    set_base_urls(&mut urls, "http://127.0.0.1:5001", "http://127.0.0.1:5002");
    urls
}

#[test]
fn test_fallback_with_mock_server() {
    let registry_path = format!("/TheGraphNetworksRegistry_v{}_x.json", SCHEMA_VERSION);
    let urls = mock_urls();
    let primary_url = format!("{}{}", urls.primary, registry_path);
    let fallback_url = format!("{}{}", urls.fallback, registry_path);

    // Primary succeeds: the mirror is not asked
    let (result, asked) =
        run(RegistryVersion::Latest, &urls, answer(200, REGISTRY_JSON), answer(200, REGISTRY_JSON));
    assert!(result.is_ok(), "Should succeed with primary URL");
    let registry = result.unwrap();
    assert!(registry.get_network_by_id("mainnet").is_some());
    assert_eq!(asked, vec![primary_url.clone()]);

    // Primary fails, fallback succeeds
    let (result, asked) =
        run(RegistryVersion::Latest, &urls, answer(500, ""), answer(200, REGISTRY_JSON));
    assert!(result.is_ok(), "Should succeed using fallback URL");
    let registry = result.unwrap();
    assert!(registry.get_network_by_id("mainnet").is_some());
    assert_eq!(asked, vec![primary_url.clone(), fallback_url.clone()]);

    // Both primary and fallback fail
    let (result, asked) = run(RegistryVersion::Latest, &urls, answer(200, "bye"), answer(404, ""));
    assert!(result.is_err(), "Should fail when both URLs fail");
    assert_eq!(asked, vec![primary_url, fallback_url]);
}

#[test]
fn test_http_errors() {
    let urls = mock_urls();
    // A host without a matching route answers 501.
    let unrouted = || answer(501, "");

    // Invalid JSON response
    let (result, _) = run(RegistryVersion::Latest, &urls, answer(200, "{invalid_json"), unrouted());
    assert!(matches!(result, Err(Error::Parse(_))));

    // HTTP 404 on both servers
    let (result, _) = run(RegistryVersion::Latest, &urls, answer(404, ""), answer(404, ""));
    assert!(matches!(result, Err(Error::Http(_))));

    // Empty response
    let (result, _) = run(RegistryVersion::Latest, &urls, answer(200, ""), unrouted());
    assert!(matches!(result, Err(Error::Parse(_))));

    // Valid JSON but invalid schema
    let invalid_schema_json = r#"{
                "$schema": "https://networks-registry.thegraph.com/TheGraphNetworksRegistrySchema_vx_x.json",
                "version": "x.x.x",
                "title": "Test Registry",
                "description": "Test Registry",
                "updatedAt": "2025-01-01T00:00:00Z",
                "networks": "not_an_array"
            }"#;
    let (result, _) = run(RegistryVersion::Latest, &urls, answer(200, invalid_schema_json), unrouted());
    assert!(matches!(result, Err(Error::Parse(_))));

    // Connection refused
    let mut urls = urls;
    set_base_urls(&mut urls, "http://localhost:1", "invalid_url");
    let (result, _) = run(
        RegistryVersion::Latest,
        &urls,
        Response::Failed("connection refused".to_string()),
        Response::Failed("builder error".to_string()),
    );
    assert!(matches!(result, Err(Error::Http(_))));
}

#[test]
fn test_fetch_malformed_version() {
    let (fetch, action) = RegistryFetch::start(&RegistryVersion::Exact("v0.5.0"), &BaseUrls::new());
    assert!(matches!(action, FetchAction::Finish(Err(Error::InvalidVersionFormat(_)))));
    assert!(matches!(fetch.state, FetchState::Finished));
}

#[test]
fn test_fetch_invalid_version() {
    // Neither host has a document of this version.
    let (result, asked) =
        run(RegistryVersion::Exact("999.999.999"), &BaseUrls::new(), answer(404, ""), answer(404, ""));
    assert!(matches!(result, Err(Error::Http(FetchError::InvalidStatusCode(404)))));
    assert_eq!(asked.len(), 2);
}

#[test]
fn advancing_a_finished_fetch_hands_the_result_back() {
    let (mut fetch, _) = RegistryFetch::start(&RegistryVersion::Exact("x"), &BaseUrls::new());
    let action = fetch.advance(Err(Error::Http(FetchError::InvalidStatusCode(500))));
    assert!(matches!(action, FetchAction::Finish(Err(Error::Http(FetchError::InvalidStatusCode(500))))));
    assert!(matches!(fetch.state, FetchState::Finished));
}

#[test]
fn valid_exact_version_asks_its_document() {
    let urls = mock_urls();
    let (result, asked) =
        run(RegistryVersion::Exact("0.5.3"), &urls, answer(200, REGISTRY_JSON), answer(500, ""));
    assert!(result.is_ok());
    assert_eq!(asked, vec!["http://127.0.0.1:5001/TheGraphNetworksRegistry_0_5_3.json".to_string()]);
}

#[test]
fn both_failing_gives_the_primary_failure() {
    let urls = mock_urls();
    let (result, _) = run(RegistryVersion::Latest, &urls, answer(503, ""), answer(404, ""));
    assert!(matches!(result, Err(Error::Http(FetchError::InvalidStatusCode(503)))));
    let (result, _) = run(
        RegistryVersion::Latest,
        &urls,
        Response::Failed("timed out".to_string()),
        answer(200, "{"),
    );
    match result {
        Err(Error::Http(FetchError::Request(m))) => assert_eq!(m, "timed out"),
        other => panic!("unexpected {:?}", other),
    }
    let (result, _) = run(RegistryVersion::Latest, &urls, answer(200, "[]"), answer(500, ""));
    assert!(matches!(result, Err(Error::Parse(ParseError::Schema))));
}

#[test]
fn responses_are_classified_by_status() {
    assert!(matches!(
        registry_from_response(answer(500, REGISTRY_JSON)),
        Err(Error::Http(FetchError::InvalidStatusCode(500)))
    ));
    assert!(matches!(
        registry_from_response(answer(199, REGISTRY_JSON)),
        Err(Error::Http(FetchError::InvalidStatusCode(199)))
    ));
    assert!(matches!(
        registry_from_response(answer(300, REGISTRY_JSON)),
        Err(Error::Http(FetchError::InvalidStatusCode(300)))
    ));
    assert!(registry_from_response(answer(200, REGISTRY_JSON)).is_ok());
    assert!(registry_from_response(answer(299, REGISTRY_JSON)).is_ok());
    assert!(matches!(
        registry_from_response(answer(204, "")),
        Err(Error::Parse(ParseError::Syntax(_)))
    ));
}
