use graph_networks_registry::{Error, NetworkType, NetworksRegistry, ParseError};

const REGISTRY_JSON: &str = r#"{
        "$schema": "https://networks-registry.thegraph.com/TheGraphNetworksRegistrySchema_vx_x.json",
        "version": "x.x.x",
        "title": "Test Registry",
        "description": "Test Registry",
        "updatedAt": "2025-01-01T00:00:00Z",
        "networks": [
            {
                "id": "mainnet",
                "fullName": "Ethereum Mainnet",
                "shortName": "Ethereum",
                "caip2Id": "eip155:1",
                "networkType": "mainnet",
                "aliases": ["ethereum", "eth"],
                "issuanceRewards": true,
                "services": {}
            }
        ]
    }"#;

#[test]
fn test_get_network() {
    let registry = NetworksRegistry::from_json(REGISTRY_JSON).expect("Failed to parse registry");

    assert_eq!(registry.networks.len(), 1);

    let network = registry.get_network_by_alias("eth");
    assert!(network.is_some());
    assert_eq!(network.unwrap().id, "mainnet");

    let network = registry.get_network_by_alias("ethereum");
    assert!(network.is_some());
    assert_eq!(network.unwrap().id, "mainnet");

    let network = registry.get_network_by_alias("nonexistent");
    assert!(network.is_none());

    let network = registry.get_network_by_id("mainnet");
    assert!(network.is_some());
    assert_eq!(network.unwrap().id, "mainnet");
}

#[test]
fn document_fields_are_read_from_camel_case_members() {
    let registry = NetworksRegistry::from_json(REGISTRY_JSON).unwrap();
    assert_eq!(
        registry.schema,
        "https://networks-registry.thegraph.com/TheGraphNetworksRegistrySchema_vx_x.json"
    );
    assert_eq!(registry.version, "x.x.x");
    assert_eq!(registry.title, "Test Registry");
    assert_eq!(registry.updated_at, "2025-01-01T00:00:00Z");
    let n = &registry.networks[0];
    assert_eq!(n.full_name, "Ethereum Mainnet");
    assert_eq!(n.short_name, "Ethereum");
    assert_eq!(n.caip2_id, "eip155:1");
    assert_eq!(n.network_type, NetworkType::Mainnet);
    assert!(n.issuance_rewards);
    assert_eq!(n.aliases, Some(vec!["ethereum".to_string(), "eth".to_string()]));
    assert!(n.services.firehose.is_none());
    assert!(n.docs_url.is_none());
    assert!(n.firehose.is_none());
}

#[test]
fn empty_text_is_a_parse_error() {
    let r = NetworksRegistry::from_json("");
    assert!(matches!(r, Err(Error::Parse(ParseError::Syntax(_)))));
}

#[test]
fn invalid_json_is_a_parse_error() {
    let r = NetworksRegistry::from_json("{invalid_json");
    assert!(matches!(r, Err(Error::Parse(ParseError::Syntax(_)))));
    let r = NetworksRegistry::from_json("bye");
    assert!(matches!(r, Err(Error::Parse(ParseError::Syntax(_)))));
}

#[test]
fn networks_that_are_not_an_array_are_a_parse_error() {
    let text = r#"{
        "$schema": "https://networks-registry.thegraph.com/TheGraphNetworksRegistrySchema_vx_x.json",
        "version": "x.x.x",
        "title": "Test Registry",
        "description": "Test Registry",
        "updatedAt": "2025-01-01T00:00:00Z",
        "networks": "not_an_array"
    }"#;
    let r = NetworksRegistry::from_json(text);
    assert!(matches!(r, Err(Error::Parse(ParseError::Schema))));
}

#[test]
fn empty_networks_is_an_empty_registry() {
    let text = r#"{"$schema": "s", "version": "v", "title": "t", "description": "d",
        "updatedAt": "u", "networks": []}"#;
    let r = NetworksRegistry::from_json(text).unwrap();
    assert!(r.networks.is_empty());
    assert!(r.get_network_by_id("mainnet").is_none());
}

#[test]
fn missing_required_member_is_a_parse_error() {
    let text = r#"{"$schema": "s", "version": "v", "title": "t", "description": "d",
        "networks": []}"#;
    assert!(matches!(
        NetworksRegistry::from_json(text),
        Err(Error::Parse(ParseError::Schema))
    ));
}

#[test]
fn unknown_enum_name_is_a_parse_error() {
    let text = r#"{"$schema": "s", "version": "v", "title": "t", "description": "d",
        "updatedAt": "u", "networks": [{"id": "x", "fullName": "X", "shortName": "X",
        "caip2Id": "c:1", "networkType": "sidechain", "issuanceRewards": false,
        "services": {}}]}"#;
    assert!(matches!(
        NetworksRegistry::from_json(text),
        Err(Error::Parse(ParseError::Schema))
    ));
}

#[test]
fn nested_members_are_decoded() {
    let text = r#"{"$schema": "s", "version": "v", "title": "t", "description": "d",
        "updatedAt": "u", "networks": [{"id": "arbitrum-one", "fullName": "Arbitrum One",
        "shortName": "Arbitrum", "caip2Id": "eip155:42161", "networkType": "mainnet",
        "issuanceRewards": true, "docsUrl": null, "nativeToken": "ETH",
        "relations": [{"kind": "l2Of", "network": "mainnet"}],
        "apiUrls": [{"kind": "etherscan", "url": "https://api.arbiscan.io/api"}],
        "firehose": {"blockType": "sf.ethereum.type.v2.Block", "bufUrl": "https://buf.build/x",
            "bytesEncoding": "0xhex", "evmExtendedModel": true,
            "firstStreamableBlock": {"height": -3, "id": "0xabc"}},
        "graphNode": {"protocol": "ethereum"},
        "icon": {"web3Icons": {"name": "arbitrum", "variants": ["mono"]}},
        "indexerDocsUrls": [{"url": "https://docs.example/arb"}],
        "tokenApi": {"features": ["dexes", "nfts"], "networkId": "arbitrum-one"},
        "services": {"sps": ["https://sps.example"], "tokenApi": ["https://token.example"]},
        "unknownMember": 1}]}"#;
    let r = NetworksRegistry::from_json(text).unwrap();
    let n = &r.networks[0];
    assert!(n.docs_url.is_none());
    assert_eq!(n.native_token.as_deref(), Some("ETH"));
    let rel = &n.relations.as_ref().unwrap()[0];
    assert_eq!(rel.kind, graph_networks_registry::RelationKind::L2Of);
    assert_eq!(rel.network, "mainnet");
    let api = &n.api_urls.as_ref().unwrap()[0];
    assert_eq!(api.kind, graph_networks_registry::ApiUrlKind::Etherscan);
    let fh = n.firehose.as_ref().unwrap();
    assert_eq!(fh.bytes_encoding, graph_networks_registry::BytesEncoding::The0Xhex);
    assert_eq!(fh.evm_extended_model, Some(true));
    assert_eq!(fh.first_streamable_block.as_ref().unwrap().height, -3);
    assert_eq!(
        n.graph_node.as_ref().unwrap().protocol,
        Some(graph_networks_registry::Protocol::Ethereum)
    );
    let icons = n.icon.as_ref().unwrap().web3_icons.as_ref().unwrap();
    assert_eq!(icons.name, "arbitrum");
    assert_eq!(icons.variants, Some(vec!["mono".to_string()]));
    assert!(n.indexer_docs_urls.as_ref().unwrap()[0].description.is_none());
    let features = n.token_api.as_ref().unwrap().features.as_ref().unwrap();
    assert_eq!(
        features,
        &vec![graph_networks_registry::Feature::Dexes, graph_networks_registry::Feature::Nfts]
    );
    assert_eq!(n.services.sps, Some(vec!["https://sps.example".to_string()]));
    assert_eq!(n.services.token_api, Some(vec!["https://token.example".to_string()]));
}

#[test]
fn non_integer_height_is_a_parse_error() {
    let text = r#"{"$schema": "s", "version": "v", "title": "t", "description": "d",
        "updatedAt": "u", "networks": [{"id": "x", "fullName": "X", "shortName": "X",
        "caip2Id": "c:1", "networkType": "testnet", "issuanceRewards": false,
        "services": {}, "firehose": {"blockType": "b", "bufUrl": "u", "bytesEncoding": "hex",
        "firstStreamableBlock": {"height": 1.5, "id": "0x"}}}]}"#;
    assert!(matches!(
        NetworksRegistry::from_json(text),
        Err(Error::Parse(ParseError::Schema))
    ));
}

fn two_networks() -> NetworksRegistry {
    let text = r#"{"$schema": "s", "version": "v", "title": "t", "description": "d",
        "updatedAt": "u", "networks": [
        {"id": "alpha", "fullName": "A", "shortName": "A", "caip2Id": "c:1",
         "networkType": "mainnet", "issuanceRewards": false, "services": {},
         "aliases": ["beta"]},
        {"id": "beta", "fullName": "B", "shortName": "B", "caip2Id": "c:2",
         "networkType": "testnet", "issuanceRewards": false, "services": {},
         "aliases": ["shared"]},
        {"id": "gamma", "fullName": "C", "shortName": "C", "caip2Id": "c:3",
         "networkType": "devnet", "issuanceRewards": false, "services": {},
         "aliases": ["shared"]}]}"#;
    NetworksRegistry::from_json(text).unwrap()
}

#[test]
fn graph_id_prefers_an_id_over_an_alias() {
    let r = two_networks();
    assert_eq!(r.get_network_by_graph_id("beta").unwrap().full_name, "B");
    assert_eq!(r.get_network_by_alias("beta").unwrap().full_name, "A");
    assert_eq!(r.get_network_by_graph_id("shared").unwrap().full_name, "B");
    assert!(r.get_network_by_graph_id("delta").is_none());
}

#[test]
fn lookups_are_exact_and_case_sensitive() {
    let r = two_networks();
    assert!(r.get_network_by_id("Alpha").is_none());
    assert!(r.get_network_by_alias("SHARED").is_none());
    assert_eq!(r.get_network_by_alias("shared").unwrap().id, "beta");
}

#[test]
fn from_str_loads_like_from_json() {
    let r: NetworksRegistry = REGISTRY_JSON.parse().unwrap();
    assert_eq!(r.networks[0].id, "mainnet");
    let e: Result<NetworksRegistry, Error> = "".parse();
    assert!(matches!(e, Err(Error::Parse(_))));
}
