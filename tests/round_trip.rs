use graph_networks_registry::{Json, NetworksRegistry};

const RICH_JSON: &str = r#"{"$schema": "s", "version": "0.5.3", "title": "t", "description": "d",
    "updatedAt": "u", "networks": [
    {"id": "arbitrum-one", "fullName": "Arbitrum One", "shortName": "Arbitrum",
     "caip2Id": "eip155:42161", "networkType": "mainnet", "issuanceRewards": true,
     "aliases": ["arb", "arbitrum"], "nativeToken": "ETH", "secondName": "One",
     "docsUrl": "https://docs.arbitrum.io", "explorerUrls": ["https://arbiscan.io"],
     "rpcUrls": ["https://arb1.arbitrum.io/rpc"],
     "relations": [{"kind": "l2Of", "network": "mainnet"}],
     "apiUrls": [{"kind": "blockscout", "url": "https://x"}, {"kind": "subscan", "url": "https://y"}],
     "firehose": {"blockType": "b", "bufUrl": "u", "bytesEncoding": "0xhex",
        "blockFeatures": ["extended"], "deprecatedAt": "2025", "evmExtendedModel": false,
        "firstStreamableBlock": {"height": 9223372036854775807, "id": "0x0"}},
     "graphNode": {"deprecatedAt": "2024", "protocol": "starknet"},
     "icon": {"web3Icons": {"name": "arbitrum"}},
     "indexerDocsUrls": [{"url": "https://d", "description": "Arbitrum 101"}],
     "tokenApi": {"features": ["tokens", "other"], "networkId": "arb", "deprecatedAt": "z"},
     "services": {"firehose": ["f:443"], "substreams": ["s:443"], "subgraphs": [], "sps": null}},
    {"id": "sepolia", "fullName": "Sepolia", "shortName": "Sepolia", "caip2Id": "eip155:11155111",
     "networkType": "testnet", "issuanceRewards": false, "services": {},
     "relations": [{"kind": "testnetOf", "network": "mainnet"}]}]}"#;

fn to_value(j: &Json) -> serde_json::Value {
    match j {
        Json::Null => serde_json::Value::Null,
        Json::Bool(b) => serde_json::Value::Bool(*b),
        Json::Number(n) => serde_json::Value::from(n.expect("integer")),
        Json::Text(s) => serde_json::Value::String(s.clone()),
        Json::Array(a) => serde_json::Value::Array(a.iter().map(to_value).collect()),
        Json::Object(m) => {
            let mut map = serde_json::Map::new();
            for (k, v) in m {
                map.insert(k.clone(), to_value(v));
            }
            serde_json::Value::Object(map)
        }
    }
}

#[test]
fn json_value_of_a_registry_loads_back_equal() {
    let doc = NetworksRegistry::from_json(RICH_JSON).unwrap();
    let back = NetworksRegistry::from_json_value(&doc.to_json_value()).unwrap();
    assert_eq!(format!("{:?}", back), format!("{:?}", doc));
}

#[test]
fn serialized_text_parses_back_equal() {
    let doc = NetworksRegistry::from_json(RICH_JSON).unwrap();
    let text = to_value(&doc.to_json_value()).to_string();
    let back = NetworksRegistry::from_json(&text).unwrap();
    assert_eq!(format!("{:?}", back), format!("{:?}", doc));
    assert_eq!(back.networks[0].firehose.as_ref().unwrap().first_streamable_block.as_ref().unwrap().height, i64::MAX);
}

#[test]
fn json_value_names_members_as_on_the_wire() {
    let doc = NetworksRegistry::from_json(RICH_JSON).unwrap();
    let v = to_value(&doc.to_json_value());
    assert_eq!(v["$schema"], "s");
    assert_eq!(v["updatedAt"], "u");
    let n = &v["networks"][0];
    assert_eq!(n["caip2Id"], "eip155:42161");
    assert_eq!(n["firehose"]["bytesEncoding"], "0xhex");
    assert_eq!(n["relations"][0]["kind"], "l2Of");
    assert_eq!(n["graphNode"]["protocol"], "starknet");
    assert_eq!(n["icon"]["web3Icons"]["variants"], serde_json::Value::Null);
    assert_eq!(v["networks"][1]["relations"][0]["kind"], "testnetOf");
    assert_eq!(v["networks"][1]["networkType"], "testnet");
}
