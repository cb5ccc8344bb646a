//! Encoders: each value becomes a JSON value that decodes back to it.

use vstd::prelude::*;
use crate::json::{field_of, lemma_member_at, Json};
use crate::schema::{
    api_url_dec, api_url_kind_dec, api_urls_dec, bytes_encoding_dec, feature_dec, features_dec,
    firehose_dec, first_block_dec, graph_node_dec, icon_dec, indexer_docs_url_dec,
    indexer_docs_urls_dec, network_dec, network_type_dec, networks_dec, opt_api_urls_dec,
    opt_bool_dec, opt_features_dec, opt_firehose_dec, opt_first_block_dec, opt_graph_node_dec,
    opt_icon_dec, opt_indexer_docs_urls_dec, opt_protocol_dec, opt_relations_dec, opt_text_dec,
    opt_texts_dec, opt_token_api_dec, opt_web3_icons_dec, protocol_dec, registry_dec,
    relation_dec, relation_kind_dec, relations_dec, services_dec, texts_dec, token_api_dec,
    web3_icons_dec,
};
use crate::types::{
    ApiUrl, ApiUrlKind, BytesEncoding, Feature, Firehose, FirstStreamableBlock, GraphNode, Icon,
    IndexerDocsUrl, Network, NetworkType, NetworksRegistry, Protocol, Relation, RelationKind,
    Services, TokenApi, Web3Icons,
};

verus! {

fn encode_texts(v: &Vec<String>) -> (r: Json)
    ensures
        texts_dec(r, v@),
{
    reveal(texts_dec);
    let mut items: Vec<Json> = Vec::new();
    let mut i: usize = 0;
    while i < v.len()
        invariant
            i <= v@.len(),
            items@.len() == i,
            forall|k: int| 0 <= k < i ==> items@[k] == Json::Text(#[trigger] v@[k]),
        decreases v.len() - i,
    {
        items.push(Json::Text(v[i].clone()));
        i = i + 1;
    }
    Json::Array(items)
}

fn encode_api_url_kind(x: ApiUrlKind) -> (r: Json)
    ensures
        api_url_kind_dec(r, x),
{
    reveal(api_url_kind_dec);
    proof {
        reveal_strlit("blockscout");
        reveal_strlit("etherscan");
        reveal_strlit("ethplorer");
        reveal_strlit("other");
        reveal_strlit("subscan");
        assert("blockscout"@.len() == 10);
        assert("etherscan"@.len() == 9);
        assert("ethplorer"@.len() == 9);
        assert("other"@.len() == 5);
        assert("subscan"@.len() == 7);
        assert("etherscan"@[3] == 'e');
        assert("ethplorer"@[3] == 'p');
    }
    match x {
        ApiUrlKind::Blockscout => Json::Text("blockscout".to_owned()),
        ApiUrlKind::Etherscan => Json::Text("etherscan".to_owned()),
        ApiUrlKind::Ethplorer => Json::Text("ethplorer".to_owned()),
        ApiUrlKind::Other => Json::Text("other".to_owned()),
        ApiUrlKind::Subscan => Json::Text("subscan".to_owned()),
    }
}

fn encode_bytes_encoding(x: BytesEncoding) -> (r: Json)
    ensures
        bytes_encoding_dec(r, x),
{
    reveal(bytes_encoding_dec);
    proof {
        reveal_strlit("base58");
        reveal_strlit("base64");
        reveal_strlit("hex");
        reveal_strlit("other");
        reveal_strlit("0xhex");
        assert("base58"@.len() == 6);
        assert("base64"@.len() == 6);
        assert("hex"@.len() == 3);
        assert("other"@.len() == 5);
        assert("0xhex"@.len() == 5);
        assert("base58"@[4] == '5');
        assert("base64"@[4] == '6');
        assert("other"@[0] == 'o');
        assert("0xhex"@[0] == '0');
    }
    match x {
        BytesEncoding::Base58 => Json::Text("base58".to_owned()),
        BytesEncoding::Base64 => Json::Text("base64".to_owned()),
        BytesEncoding::Hex => Json::Text("hex".to_owned()),
        BytesEncoding::Other => Json::Text("other".to_owned()),
        BytesEncoding::The0Xhex => Json::Text("0xhex".to_owned()),
    }
}

fn encode_protocol(x: Protocol) -> (r: Json)
    ensures
        protocol_dec(r, x),
{
    reveal(protocol_dec);
    proof {
        reveal_strlit("arweave");
        reveal_strlit("cosmos");
        reveal_strlit("ethereum");
        reveal_strlit("near");
        reveal_strlit("other");
        reveal_strlit("starknet");
        assert("arweave"@.len() == 7);
        assert("cosmos"@.len() == 6);
        assert("ethereum"@.len() == 8);
        assert("near"@.len() == 4);
        assert("other"@.len() == 5);
        assert("starknet"@.len() == 8);
        assert("ethereum"@[0] == 'e');
        assert("starknet"@[0] == 's');
    }
    match x {
        Protocol::Arweave => Json::Text("arweave".to_owned()),
        Protocol::Cosmos => Json::Text("cosmos".to_owned()),
        Protocol::Ethereum => Json::Text("ethereum".to_owned()),
        Protocol::Near => Json::Text("near".to_owned()),
        Protocol::Other => Json::Text("other".to_owned()),
        Protocol::Starknet => Json::Text("starknet".to_owned()),
    }
}

fn encode_network_type(x: NetworkType) -> (r: Json)
    ensures
        network_type_dec(r, x),
{
    reveal(network_type_dec);
    proof {
        reveal_strlit("beacon");
        reveal_strlit("devnet");
        reveal_strlit("mainnet");
        reveal_strlit("testnet");
        assert("beacon"@.len() == 6);
        assert("devnet"@.len() == 6);
        assert("mainnet"@.len() == 7);
        assert("testnet"@.len() == 7);
        assert("beacon"@[0] == 'b');
        assert("devnet"@[0] == 'd');
        assert("mainnet"@[0] == 'm');
        assert("testnet"@[0] == 't');
    }
    match x {
        NetworkType::Beacon => Json::Text("beacon".to_owned()),
        NetworkType::Devnet => Json::Text("devnet".to_owned()),
        NetworkType::Mainnet => Json::Text("mainnet".to_owned()),
        NetworkType::Testnet => Json::Text("testnet".to_owned()),
    }
}

fn encode_relation_kind(x: RelationKind) -> (r: Json)
    ensures
        relation_kind_dec(r, x),
{
    reveal(relation_kind_dec);
    proof {
        reveal_strlit("beaconOf");
        reveal_strlit("evmOf");
        reveal_strlit("forkedFrom");
        reveal_strlit("l2Of");
        reveal_strlit("other");
        reveal_strlit("shardOf");
        reveal_strlit("svmOf");
        reveal_strlit("testnetOf");
        assert("beaconOf"@.len() == 8);
        assert("evmOf"@.len() == 5);
        assert("forkedFrom"@.len() == 10);
        assert("l2Of"@.len() == 4);
        assert("other"@.len() == 5);
        assert("shardOf"@.len() == 7);
        assert("svmOf"@.len() == 5);
        assert("testnetOf"@.len() == 9);
        assert("evmOf"@[0] == 'e');
        assert("other"@[0] == 'o');
        assert("svmOf"@[0] == 's');
    }
    match x {
        RelationKind::BeaconOf => Json::Text("beaconOf".to_owned()),
        RelationKind::EvmOf => Json::Text("evmOf".to_owned()),
        RelationKind::ForkedFrom => Json::Text("forkedFrom".to_owned()),
        RelationKind::L2Of => Json::Text("l2Of".to_owned()),
        RelationKind::Other => Json::Text("other".to_owned()),
        RelationKind::ShardOf => Json::Text("shardOf".to_owned()),
        RelationKind::SvmOf => Json::Text("svmOf".to_owned()),
        RelationKind::TestnetOf => Json::Text("testnetOf".to_owned()),
    }
}

fn encode_feature(x: Feature) -> (r: Json)
    ensures
        feature_dec(r, x),
{
    reveal(feature_dec);
    proof {
        reveal_strlit("dexes");
        reveal_strlit("nfts");
        reveal_strlit("other");
        reveal_strlit("tokens");
        assert("dexes"@.len() == 5);
        assert("nfts"@.len() == 4);
        assert("other"@.len() == 5);
        assert("tokens"@.len() == 6);
        assert("dexes"@[0] == 'd');
        assert("other"@[0] == 'o');
    }
    match x {
        Feature::Dexes => Json::Text("dexes".to_owned()),
        Feature::Nfts => Json::Text("nfts".to_owned()),
        Feature::Other => Json::Text("other".to_owned()),
        Feature::Tokens => Json::Text("tokens".to_owned()),
    }
}

fn encode_features(v: &Vec<Feature>) -> (r: Json)
    ensures
        features_dec(r, v@),
{
    reveal(features_dec);
    let mut items: Vec<Json> = Vec::new();
    let mut i: usize = 0;
    while i < v.len()
        invariant
            i <= v@.len(),
            items@.len() == i,
            forall|k: int| 0 <= k < i ==> feature_dec(items@[k], #[trigger] v@[k]),
        decreases v.len() - i,
    {
        items.push(encode_feature(v[i]));
        i = i + 1;
    }
    Json::Array(items)
}

fn encode_api_urls(v: &Vec<ApiUrl>) -> (r: Json)
    ensures
        api_urls_dec(r, v@),
{
    reveal(api_urls_dec);
    let mut items: Vec<Json> = Vec::new();
    let mut i: usize = 0;
    while i < v.len()
        invariant
            i <= v@.len(),
            items@.len() == i,
            forall|k: int| 0 <= k < i ==> api_url_dec(items@[k], #[trigger] v@[k]),
        decreases v.len() - i,
    {
        items.push(encode_api_url(&v[i]));
        i = i + 1;
    }
    Json::Array(items)
}

fn encode_indexer_docs_urls(v: &Vec<IndexerDocsUrl>) -> (r: Json)
    ensures
        indexer_docs_urls_dec(r, v@),
{
    reveal(indexer_docs_urls_dec);
    let mut items: Vec<Json> = Vec::new();
    let mut i: usize = 0;
    while i < v.len()
        invariant
            i <= v@.len(),
            items@.len() == i,
            forall|k: int| 0 <= k < i ==> indexer_docs_url_dec(items@[k], #[trigger] v@[k]),
        decreases v.len() - i,
    {
        items.push(encode_indexer_docs_url(&v[i]));
        i = i + 1;
    }
    Json::Array(items)
}

fn encode_relations(v: &Vec<Relation>) -> (r: Json)
    ensures
        relations_dec(r, v@),
{
    reveal(relations_dec);
    let mut items: Vec<Json> = Vec::new();
    let mut i: usize = 0;
    while i < v.len()
        invariant
            i <= v@.len(),
            items@.len() == i,
            forall|k: int| 0 <= k < i ==> relation_dec(items@[k], #[trigger] v@[k]),
        decreases v.len() - i,
    {
        items.push(encode_relation(&v[i]));
        i = i + 1;
    }
    Json::Array(items)
}

fn encode_networks(v: &Vec<Network>) -> (r: Json)
    ensures
        networks_dec(r, v@),
{
    reveal(networks_dec);
    let mut items: Vec<Json> = Vec::new();
    let mut i: usize = 0;
    while i < v.len()
        invariant
            i <= v@.len(),
            items@.len() == i,
            forall|k: int| 0 <= k < i ==> network_dec(items@[k], #[trigger] v@[k]),
        decreases v.len() - i,
    {
        items.push(encode_network(&v[i]));
        i = i + 1;
    }
    Json::Array(items)
}

fn encode_opt_text(x: &Option<String>) -> (r: Json)
    ensures
        opt_text_dec(Some(r), *x),
{
    match x {
        Some(y) => Json::Text(y.clone()),
        None => Json::Null,
    }
}

fn encode_opt_bool(x: &Option<bool>) -> (r: Json)
    ensures
        opt_bool_dec(Some(r), *x),
{
    match x {
        Some(y) => Json::Bool(*y),
        None => Json::Null,
    }
}

fn encode_opt_texts(x: &Option<Vec<String>>) -> (r: Json)
    ensures
        opt_texts_dec(Some(r), *x),
{
    match x {
        Some(y) => encode_texts(y),
        None => Json::Null,
    }
}

fn encode_opt_protocol(x: &Option<Protocol>) -> (r: Json)
    ensures
        opt_protocol_dec(Some(r), *x),
{
    match x {
        Some(y) => encode_protocol(*y),
        None => Json::Null,
    }
}

fn encode_opt_first_block(x: &Option<FirstStreamableBlock>) -> (r: Json)
    ensures
        opt_first_block_dec(Some(r), *x),
{
    match x {
        Some(y) => encode_first_block(y),
        None => Json::Null,
    }
}

fn encode_opt_web3_icons(x: &Option<Web3Icons>) -> (r: Json)
    ensures
        opt_web3_icons_dec(Some(r), *x),
{
    match x {
        Some(y) => encode_web3_icons(y),
        None => Json::Null,
    }
}

fn encode_opt_firehose(x: &Option<Firehose>) -> (r: Json)
    ensures
        opt_firehose_dec(Some(r), *x),
{
    match x {
        Some(y) => encode_firehose(y),
        None => Json::Null,
    }
}

fn encode_opt_graph_node(x: &Option<GraphNode>) -> (r: Json)
    ensures
        opt_graph_node_dec(Some(r), *x),
{
    match x {
        Some(y) => encode_graph_node(y),
        None => Json::Null,
    }
}

fn encode_opt_icon(x: &Option<Icon>) -> (r: Json)
    ensures
        opt_icon_dec(Some(r), *x),
{
    match x {
        Some(y) => encode_icon(y),
        None => Json::Null,
    }
}

fn encode_opt_token_api(x: &Option<TokenApi>) -> (r: Json)
    ensures
        opt_token_api_dec(Some(r), *x),
{
    match x {
        Some(y) => encode_token_api(y),
        None => Json::Null,
    }
}

fn encode_opt_features(x: &Option<Vec<Feature>>) -> (r: Json)
    ensures
        opt_features_dec(Some(r), *x),
{
    match x {
        Some(y) => encode_features(y),
        None => Json::Null,
    }
}

fn encode_opt_api_urls(x: &Option<Vec<ApiUrl>>) -> (r: Json)
    ensures
        opt_api_urls_dec(Some(r), *x),
{
    match x {
        Some(y) => encode_api_urls(y),
        None => Json::Null,
    }
}

fn encode_opt_indexer_docs_urls(x: &Option<Vec<IndexerDocsUrl>>) -> (r: Json)
    ensures
        opt_indexer_docs_urls_dec(Some(r), *x),
{
    match x {
        Some(y) => encode_indexer_docs_urls(y),
        None => Json::Null,
    }
}

fn encode_opt_relations(x: &Option<Vec<Relation>>) -> (r: Json)
    ensures
        opt_relations_dec(Some(r), *x),
{
    match x {
        Some(y) => encode_relations(y),
        None => Json::Null,
    }
}

fn encode_first_block(x: &FirstStreamableBlock) -> (r: Json)
    ensures
        first_block_dec(r, *x),
{
    reveal(first_block_dec);
    let height = Json::Number(Some(x.height));
    let id = Json::Text(x.id.clone());
    let mut m: Vec<(String, Json)> = Vec::new();
    m.push(("height".to_owned(), height));
    m.push(("id".to_owned(), id));
    proof {
        reveal_strlit("height");
        reveal_strlit("id");
        assert("height"@.len() == 6);
        assert("id"@.len() == 2);
        lemma_member_at(m, 0);
        lemma_member_at(m, 1);
    }
    Json::Object(m)
}

fn encode_graph_node(x: &GraphNode) -> (r: Json)
    ensures
        graph_node_dec(r, *x),
{
    reveal(graph_node_dec);
    let deprecated_at = encode_opt_text(&x.deprecated_at);
    let protocol = encode_opt_protocol(&x.protocol);
    let mut m: Vec<(String, Json)> = Vec::new();
    m.push(("deprecatedAt".to_owned(), deprecated_at));
    m.push(("protocol".to_owned(), protocol));
    proof {
        reveal_strlit("deprecatedAt");
        reveal_strlit("protocol");
        assert("deprecatedAt"@.len() == 12);
        assert("protocol"@.len() == 8);
        lemma_member_at(m, 0);
        lemma_member_at(m, 1);
    }
    Json::Object(m)
}

fn encode_web3_icons(x: &Web3Icons) -> (r: Json)
    ensures
        web3_icons_dec(r, *x),
{
    reveal(web3_icons_dec);
    let name = Json::Text(x.name.clone());
    let variants = encode_opt_texts(&x.variants);
    let mut m: Vec<(String, Json)> = Vec::new();
    m.push(("name".to_owned(), name));
    m.push(("variants".to_owned(), variants));
    proof {
        reveal_strlit("name");
        reveal_strlit("variants");
        assert("name"@.len() == 4);
        assert("variants"@.len() == 8);
        lemma_member_at(m, 0);
        lemma_member_at(m, 1);
    }
    Json::Object(m)
}

fn encode_icon(x: &Icon) -> (r: Json)
    ensures
        icon_dec(r, *x),
{
    reveal(icon_dec);
    let web3_icons = encode_opt_web3_icons(&x.web3_icons);
    let mut m: Vec<(String, Json)> = Vec::new();
    m.push(("web3Icons".to_owned(), web3_icons));
    proof {
        reveal_strlit("web3Icons");
        assert("web3Icons"@.len() == 9);
        lemma_member_at(m, 0);
    }
    Json::Object(m)
}

fn encode_indexer_docs_url(x: &IndexerDocsUrl) -> (r: Json)
    ensures
        indexer_docs_url_dec(r, *x),
{
    reveal(indexer_docs_url_dec);
    let description = encode_opt_text(&x.description);
    let url = Json::Text(x.url.clone());
    let mut m: Vec<(String, Json)> = Vec::new();
    m.push(("description".to_owned(), description));
    m.push(("url".to_owned(), url));
    proof {
        reveal_strlit("description");
        reveal_strlit("url");
        assert("description"@.len() == 11);
        assert("url"@.len() == 3);
        lemma_member_at(m, 0);
        lemma_member_at(m, 1);
    }
    Json::Object(m)
}

fn encode_relation(x: &Relation) -> (r: Json)
    ensures
        relation_dec(r, *x),
{
    reveal(relation_dec);
    let kind = encode_relation_kind(x.kind);
    let network = Json::Text(x.network.clone());
    let mut m: Vec<(String, Json)> = Vec::new();
    m.push(("kind".to_owned(), kind));
    m.push(("network".to_owned(), network));
    proof {
        reveal_strlit("kind");
        reveal_strlit("network");
        assert("kind"@.len() == 4);
        assert("network"@.len() == 7);
        lemma_member_at(m, 0);
        lemma_member_at(m, 1);
    }
    Json::Object(m)
}

fn encode_api_url(x: &ApiUrl) -> (r: Json)
    ensures
        api_url_dec(r, *x),
{
    reveal(api_url_dec);
    let kind = encode_api_url_kind(x.kind);
    let url = Json::Text(x.url.clone());
    let mut m: Vec<(String, Json)> = Vec::new();
    m.push(("kind".to_owned(), kind));
    m.push(("url".to_owned(), url));
    proof {
        reveal_strlit("kind");
        reveal_strlit("url");
        assert("kind"@.len() == 4);
        assert("url"@.len() == 3);
        lemma_member_at(m, 0);
        lemma_member_at(m, 1);
    }
    Json::Object(m)
}

fn encode_services(x: &Services) -> (r: Json)
    ensures
        services_dec(r, *x),
{
    reveal(services_dec);
    let firehose = encode_opt_texts(&x.firehose);
    let sps = encode_opt_texts(&x.sps);
    let subgraphs = encode_opt_texts(&x.subgraphs);
    let substreams = encode_opt_texts(&x.substreams);
    let token_api = encode_opt_texts(&x.token_api);
    let mut m: Vec<(String, Json)> = Vec::new();
    m.push(("firehose".to_owned(), firehose));
    m.push(("sps".to_owned(), sps));
    m.push(("subgraphs".to_owned(), subgraphs));
    m.push(("substreams".to_owned(), substreams));
    m.push(("tokenApi".to_owned(), token_api));
    proof {
        reveal_strlit("firehose");
        reveal_strlit("sps");
        reveal_strlit("subgraphs");
        reveal_strlit("substreams");
        reveal_strlit("tokenApi");
        assert("firehose"@.len() == 8);
        assert("sps"@.len() == 3);
        assert("subgraphs"@.len() == 9);
        assert("substreams"@.len() == 10);
        assert("tokenApi"@.len() == 8);
        assert("firehose"@[0] == 'f');
        assert("tokenApi"@[0] == 't');
        lemma_member_at(m, 0);
        lemma_member_at(m, 1);
        lemma_member_at(m, 2);
        lemma_member_at(m, 3);
        lemma_member_at(m, 4);
    }
    Json::Object(m)
}

fn encode_token_api(x: &TokenApi) -> (r: Json)
    ensures
        token_api_dec(r, *x),
{
    reveal(token_api_dec);
    let deprecated_at = encode_opt_text(&x.deprecated_at);
    let features = encode_opt_features(&x.features);
    let network_id = encode_opt_text(&x.network_id);
    let mut m: Vec<(String, Json)> = Vec::new();
    m.push(("deprecatedAt".to_owned(), deprecated_at));
    m.push(("features".to_owned(), features));
    m.push(("networkId".to_owned(), network_id));
    proof {
        reveal_strlit("deprecatedAt");
        reveal_strlit("features");
        reveal_strlit("networkId");
        assert("deprecatedAt"@.len() == 12);
        assert("features"@.len() == 8);
        assert("networkId"@.len() == 9);
        lemma_member_at(m, 0);
        lemma_member_at(m, 1);
        lemma_member_at(m, 2);
    }
    Json::Object(m)
}

fn encode_firehose(x: &Firehose) -> (r: Json)
    ensures
        firehose_dec(r, *x),
{
    reveal(firehose_dec);
    let block_features = encode_opt_texts(&x.block_features);
    let block_type = Json::Text(x.block_type.clone());
    let buf_url = Json::Text(x.buf_url.clone());
    let bytes_encoding = encode_bytes_encoding(x.bytes_encoding);
    let deprecated_at = encode_opt_text(&x.deprecated_at);
    let evm_extended_model = encode_opt_bool(&x.evm_extended_model);
    let first_streamable_block = encode_opt_first_block(&x.first_streamable_block);
    let mut m: Vec<(String, Json)> = Vec::new();
    m.push(("blockFeatures".to_owned(), block_features));
    m.push(("blockType".to_owned(), block_type));
    m.push(("bufUrl".to_owned(), buf_url));
    m.push(("bytesEncoding".to_owned(), bytes_encoding));
    m.push(("deprecatedAt".to_owned(), deprecated_at));
    m.push(("evmExtendedModel".to_owned(), evm_extended_model));
    m.push(("firstStreamableBlock".to_owned(), first_streamable_block));
    proof {
        reveal_strlit("blockFeatures");
        reveal_strlit("blockType");
        reveal_strlit("bufUrl");
        reveal_strlit("bytesEncoding");
        reveal_strlit("deprecatedAt");
        reveal_strlit("evmExtendedModel");
        reveal_strlit("firstStreamableBlock");
        assert("blockFeatures"@.len() == 13);
        assert("blockType"@.len() == 9);
        assert("bufUrl"@.len() == 6);
        assert("bytesEncoding"@.len() == 13);
        assert("deprecatedAt"@.len() == 12);
        assert("evmExtendedModel"@.len() == 16);
        assert("firstStreamableBlock"@.len() == 20);
        assert("blockFeatures"@[1] == 'l');
        assert("bytesEncoding"@[1] == 'y');
        lemma_member_at(m, 0);
        lemma_member_at(m, 1);
        lemma_member_at(m, 2);
        lemma_member_at(m, 3);
        lemma_member_at(m, 4);
        lemma_member_at(m, 5);
        lemma_member_at(m, 6);
    }
    Json::Object(m)
}

fn encode_network(x: &Network) -> (r: Json)
    ensures
        network_dec(r, *x),
{
    reveal(network_dec);
    let aliases = encode_opt_texts(&x.aliases);
    let api_urls = encode_opt_api_urls(&x.api_urls);
    let caip2_id = Json::Text(x.caip2_id.clone());
    let docs_url = encode_opt_text(&x.docs_url);
    let explorer_urls = encode_opt_texts(&x.explorer_urls);
    let firehose = encode_opt_firehose(&x.firehose);
    let full_name = Json::Text(x.full_name.clone());
    let graph_node = encode_opt_graph_node(&x.graph_node);
    let icon = encode_opt_icon(&x.icon);
    let id = Json::Text(x.id.clone());
    let indexer_docs_urls = encode_opt_indexer_docs_urls(&x.indexer_docs_urls);
    let issuance_rewards = Json::Bool(x.issuance_rewards);
    let native_token = encode_opt_text(&x.native_token);
    let network_type = encode_network_type(x.network_type);
    let relations = encode_opt_relations(&x.relations);
    let rpc_urls = encode_opt_texts(&x.rpc_urls);
    let second_name = encode_opt_text(&x.second_name);
    let services = encode_services(&x.services);
    let short_name = Json::Text(x.short_name.clone());
    let token_api = encode_opt_token_api(&x.token_api);
    let mut m: Vec<(String, Json)> = Vec::new();
    m.push(("aliases".to_owned(), aliases));
    m.push(("apiUrls".to_owned(), api_urls));
    m.push(("caip2Id".to_owned(), caip2_id));
    m.push(("docsUrl".to_owned(), docs_url));
    m.push(("explorerUrls".to_owned(), explorer_urls));
    m.push(("firehose".to_owned(), firehose));
    m.push(("fullName".to_owned(), full_name));
    m.push(("graphNode".to_owned(), graph_node));
    m.push(("icon".to_owned(), icon));
    m.push(("id".to_owned(), id));
    m.push(("indexerDocsUrls".to_owned(), indexer_docs_urls));
    m.push(("issuanceRewards".to_owned(), issuance_rewards));
    m.push(("nativeToken".to_owned(), native_token));
    m.push(("networkType".to_owned(), network_type));
    m.push(("relations".to_owned(), relations));
    m.push(("rpcUrls".to_owned(), rpc_urls));
    m.push(("secondName".to_owned(), second_name));
    m.push(("services".to_owned(), services));
    m.push(("shortName".to_owned(), short_name));
    m.push(("tokenApi".to_owned(), token_api));
    assert(m@[0].0@ == "aliases"@);
    assert(m@[1].0@ == "apiUrls"@);
    assert(m@[2].0@ == "caip2Id"@);
    assert(m@[3].0@ == "docsUrl"@);
    assert(m@[4].0@ == "explorerUrls"@);
    assert(m@[5].0@ == "firehose"@);
    assert(m@[6].0@ == "fullName"@);
    assert(m@[7].0@ == "graphNode"@);
    assert(m@[8].0@ == "icon"@);
    assert(m@[9].0@ == "id"@);
    assert(m@[10].0@ == "indexerDocsUrls"@);
    assert(m@[11].0@ == "issuanceRewards"@);
    assert(m@[12].0@ == "nativeToken"@);
    assert(m@[13].0@ == "networkType"@);
    assert(m@[14].0@ == "relations"@);
    assert(m@[15].0@ == "rpcUrls"@);
    assert(m@[16].0@ == "secondName"@);
    assert(m@[17].0@ == "services"@);
    assert(m@[18].0@ == "shortName"@);
    assert(m@[19].0@ == "tokenApi"@);
    assert(field_of(Json::Object(m), "aliases"@) == Some(m@[0].1)) by {
        reveal_strlit("aliases");
        assert("aliases"@.len() == 7);
        lemma_member_at(m, 0);
    }
    assert(field_of(Json::Object(m), "apiUrls"@) == Some(m@[1].1)) by {
        reveal_strlit("aliases");
        reveal_strlit("apiUrls");
        assert("apiUrls"@.len() == 7);
        assert("aliases"@[1] == 'l' && "apiUrls"@[1] == 'p');
        assert forall|k: int| 0 <= k < 1 implies (#[trigger] m@[k]).0@ != m@[1].0@ by {
            if k == 0 {
            }
        }
        lemma_member_at(m, 1);
    }
    assert(field_of(Json::Object(m), "caip2Id"@) == Some(m@[2].1)) by {
        reveal_strlit("aliases");
        reveal_strlit("apiUrls");
        reveal_strlit("caip2Id");
        assert("caip2Id"@.len() == 7);
        assert("aliases"@[0] == 'a' && "caip2Id"@[0] == 'c');
        assert("apiUrls"@[0] == 'a' && "caip2Id"@[0] == 'c');
        assert forall|k: int| 0 <= k < 2 implies (#[trigger] m@[k]).0@ != m@[2].0@ by {
            if k == 0 {
            } else if k == 1 {
            }
        }
        lemma_member_at(m, 2);
    }
    assert(field_of(Json::Object(m), "docsUrl"@) == Some(m@[3].1)) by {
        reveal_strlit("aliases");
        reveal_strlit("apiUrls");
        reveal_strlit("caip2Id");
        reveal_strlit("docsUrl");
        assert("docsUrl"@.len() == 7);
        assert("aliases"@[0] == 'a' && "docsUrl"@[0] == 'd');
        assert("apiUrls"@[0] == 'a' && "docsUrl"@[0] == 'd');
        assert("caip2Id"@[0] == 'c' && "docsUrl"@[0] == 'd');
        assert forall|k: int| 0 <= k < 3 implies (#[trigger] m@[k]).0@ != m@[3].0@ by {
            if k == 0 {
            } else if k == 1 {
            } else if k == 2 {
            }
        }
        lemma_member_at(m, 3);
    }
    assert(field_of(Json::Object(m), "explorerUrls"@) == Some(m@[4].1)) by {
        reveal_strlit("aliases");
        reveal_strlit("apiUrls");
        reveal_strlit("caip2Id");
        reveal_strlit("docsUrl");
        reveal_strlit("explorerUrls");
        assert("explorerUrls"@.len() == 12);
        assert("aliases"@.len() == 7);
        assert("apiUrls"@.len() == 7);
        assert("caip2Id"@.len() == 7);
        assert("docsUrl"@.len() == 7);
        assert forall|k: int| 0 <= k < 4 implies (#[trigger] m@[k]).0@ != m@[4].0@ by {
            if k == 0 {
            } else if k == 1 {
            } else if k == 2 {
            } else if k == 3 {
            }
        }
        lemma_member_at(m, 4);
    }
    assert(field_of(Json::Object(m), "firehose"@) == Some(m@[5].1)) by {
        reveal_strlit("aliases");
        reveal_strlit("apiUrls");
        reveal_strlit("caip2Id");
        reveal_strlit("docsUrl");
        reveal_strlit("explorerUrls");
        reveal_strlit("firehose");
        assert("firehose"@.len() == 8);
        assert("aliases"@.len() == 7);
        assert("apiUrls"@.len() == 7);
        assert("caip2Id"@.len() == 7);
        assert("docsUrl"@.len() == 7);
        assert("explorerUrls"@.len() == 12);
        assert forall|k: int| 0 <= k < 5 implies (#[trigger] m@[k]).0@ != m@[5].0@ by {
            if k == 0 {
            } else if k == 1 {
            } else if k == 2 {
            } else if k == 3 {
            } else if k == 4 {
            }
        }
        lemma_member_at(m, 5);
    }
    assert(field_of(Json::Object(m), "fullName"@) == Some(m@[6].1)) by {
        reveal_strlit("aliases");
        reveal_strlit("apiUrls");
        reveal_strlit("caip2Id");
        reveal_strlit("docsUrl");
        reveal_strlit("explorerUrls");
        reveal_strlit("firehose");
        reveal_strlit("fullName");
        assert("fullName"@.len() == 8);
        assert("aliases"@.len() == 7);
        assert("apiUrls"@.len() == 7);
        assert("caip2Id"@.len() == 7);
        assert("docsUrl"@.len() == 7);
        assert("explorerUrls"@.len() == 12);
        assert("firehose"@[1] == 'i' && "fullName"@[1] == 'u');
        assert forall|k: int| 0 <= k < 6 implies (#[trigger] m@[k]).0@ != m@[6].0@ by {
            if k == 0 {
            } else if k == 1 {
            } else if k == 2 {
            } else if k == 3 {
            } else if k == 4 {
            } else if k == 5 {
            }
        }
        lemma_member_at(m, 6);
    }
    assert(field_of(Json::Object(m), "graphNode"@) == Some(m@[7].1)) by {
        reveal_strlit("aliases");
        reveal_strlit("apiUrls");
        reveal_strlit("caip2Id");
        reveal_strlit("docsUrl");
        reveal_strlit("explorerUrls");
        reveal_strlit("firehose");
        reveal_strlit("fullName");
        reveal_strlit("graphNode");
        assert("graphNode"@.len() == 9);
        assert("aliases"@.len() == 7);
        assert("apiUrls"@.len() == 7);
        assert("caip2Id"@.len() == 7);
        assert("docsUrl"@.len() == 7);
        assert("explorerUrls"@.len() == 12);
        assert("firehose"@.len() == 8);
        assert("fullName"@.len() == 8);
        assert forall|k: int| 0 <= k < 7 implies (#[trigger] m@[k]).0@ != m@[7].0@ by {
            if k == 0 {
            } else if k == 1 {
            } else if k == 2 {
            } else if k == 3 {
            } else if k == 4 {
            } else if k == 5 {
            } else if k == 6 {
            }
        }
        lemma_member_at(m, 7);
    }
    assert(field_of(Json::Object(m), "icon"@) == Some(m@[8].1)) by {
        reveal_strlit("aliases");
        reveal_strlit("apiUrls");
        reveal_strlit("caip2Id");
        reveal_strlit("docsUrl");
        reveal_strlit("explorerUrls");
        reveal_strlit("firehose");
        reveal_strlit("fullName");
        reveal_strlit("graphNode");
        reveal_strlit("icon");
        assert("icon"@.len() == 4);
        assert("aliases"@.len() == 7);
        assert("apiUrls"@.len() == 7);
        assert("caip2Id"@.len() == 7);
        assert("docsUrl"@.len() == 7);
        assert("explorerUrls"@.len() == 12);
        assert("firehose"@.len() == 8);
        assert("fullName"@.len() == 8);
        assert("graphNode"@.len() == 9);
        assert forall|k: int| 0 <= k < 8 implies (#[trigger] m@[k]).0@ != m@[8].0@ by {
            if k == 0 {
            } else if k == 1 {
            } else if k == 2 {
            } else if k == 3 {
            } else if k == 4 {
            } else if k == 5 {
            } else if k == 6 {
            } else if k == 7 {
            }
        }
        lemma_member_at(m, 8);
    }
    assert(field_of(Json::Object(m), "id"@) == Some(m@[9].1)) by {
        reveal_strlit("aliases");
        reveal_strlit("apiUrls");
        reveal_strlit("caip2Id");
        reveal_strlit("docsUrl");
        reveal_strlit("explorerUrls");
        reveal_strlit("firehose");
        reveal_strlit("fullName");
        reveal_strlit("graphNode");
        reveal_strlit("icon");
        reveal_strlit("id");
        assert("id"@.len() == 2);
        assert("aliases"@.len() == 7);
        assert("apiUrls"@.len() == 7);
        assert("caip2Id"@.len() == 7);
        assert("docsUrl"@.len() == 7);
        assert("explorerUrls"@.len() == 12);
        assert("firehose"@.len() == 8);
        assert("fullName"@.len() == 8);
        assert("graphNode"@.len() == 9);
        assert("icon"@.len() == 4);
        assert forall|k: int| 0 <= k < 9 implies (#[trigger] m@[k]).0@ != m@[9].0@ by {
            if k == 0 {
            } else if k == 1 {
            } else if k == 2 {
            } else if k == 3 {
            } else if k == 4 {
            } else if k == 5 {
            } else if k == 6 {
            } else if k == 7 {
            } else if k == 8 {
            }
        }
        lemma_member_at(m, 9);
    }
    assert(field_of(Json::Object(m), "indexerDocsUrls"@) == Some(m@[10].1)) by {
        reveal_strlit("aliases");
        reveal_strlit("apiUrls");
        reveal_strlit("caip2Id");
        reveal_strlit("docsUrl");
        reveal_strlit("explorerUrls");
        reveal_strlit("firehose");
        reveal_strlit("fullName");
        reveal_strlit("graphNode");
        reveal_strlit("icon");
        reveal_strlit("id");
        reveal_strlit("indexerDocsUrls");
        assert("indexerDocsUrls"@.len() == 15);
        assert("aliases"@.len() == 7);
        assert("apiUrls"@.len() == 7);
        assert("caip2Id"@.len() == 7);
        assert("docsUrl"@.len() == 7);
        assert("explorerUrls"@.len() == 12);
        assert("firehose"@.len() == 8);
        assert("fullName"@.len() == 8);
        assert("graphNode"@.len() == 9);
        assert("icon"@.len() == 4);
        assert("id"@.len() == 2);
        assert forall|k: int| 0 <= k < 10 implies (#[trigger] m@[k]).0@ != m@[10].0@ by {
            if k == 0 {
            } else if k == 1 {
            } else if k == 2 {
            } else if k == 3 {
            } else if k == 4 {
            } else if k == 5 {
            } else if k == 6 {
            } else if k == 7 {
            } else if k == 8 {
            } else if k == 9 {
            }
        }
        lemma_member_at(m, 10);
    }
    assert(field_of(Json::Object(m), "issuanceRewards"@) == Some(m@[11].1)) by {
        reveal_strlit("aliases");
        reveal_strlit("apiUrls");
        reveal_strlit("caip2Id");
        reveal_strlit("docsUrl");
        reveal_strlit("explorerUrls");
        reveal_strlit("firehose");
        reveal_strlit("fullName");
        reveal_strlit("graphNode");
        reveal_strlit("icon");
        reveal_strlit("id");
        reveal_strlit("indexerDocsUrls");
        reveal_strlit("issuanceRewards");
        assert("issuanceRewards"@.len() == 15);
        assert("aliases"@.len() == 7);
        assert("apiUrls"@.len() == 7);
        assert("caip2Id"@.len() == 7);
        assert("docsUrl"@.len() == 7);
        assert("explorerUrls"@.len() == 12);
        assert("firehose"@.len() == 8);
        assert("fullName"@.len() == 8);
        assert("graphNode"@.len() == 9);
        assert("icon"@.len() == 4);
        assert("id"@.len() == 2);
        assert("indexerDocsUrls"@[1] == 'n' && "issuanceRewards"@[1] == 's');
        assert forall|k: int| 0 <= k < 11 implies (#[trigger] m@[k]).0@ != m@[11].0@ by {
            if k == 0 {
            } else if k == 1 {
            } else if k == 2 {
            } else if k == 3 {
            } else if k == 4 {
            } else if k == 5 {
            } else if k == 6 {
            } else if k == 7 {
            } else if k == 8 {
            } else if k == 9 {
            } else if k == 10 {
            }
        }
        lemma_member_at(m, 11);
    }
    assert(field_of(Json::Object(m), "nativeToken"@) == Some(m@[12].1)) by {
        reveal_strlit("aliases");
        reveal_strlit("apiUrls");
        reveal_strlit("caip2Id");
        reveal_strlit("docsUrl");
        reveal_strlit("explorerUrls");
        reveal_strlit("firehose");
        reveal_strlit("fullName");
        reveal_strlit("graphNode");
        reveal_strlit("icon");
        reveal_strlit("id");
        reveal_strlit("indexerDocsUrls");
        reveal_strlit("issuanceRewards");
        reveal_strlit("nativeToken");
        assert("nativeToken"@.len() == 11);
        assert("aliases"@.len() == 7);
        assert("apiUrls"@.len() == 7);
        assert("caip2Id"@.len() == 7);
        assert("docsUrl"@.len() == 7);
        assert("explorerUrls"@.len() == 12);
        assert("firehose"@.len() == 8);
        assert("fullName"@.len() == 8);
        assert("graphNode"@.len() == 9);
        assert("icon"@.len() == 4);
        assert("id"@.len() == 2);
        assert("indexerDocsUrls"@.len() == 15);
        assert("issuanceRewards"@.len() == 15);
        assert forall|k: int| 0 <= k < 12 implies (#[trigger] m@[k]).0@ != m@[12].0@ by {
            if k == 0 {
            } else if k == 1 {
            } else if k == 2 {
            } else if k == 3 {
            } else if k == 4 {
            } else if k == 5 {
            } else if k == 6 {
            } else if k == 7 {
            } else if k == 8 {
            } else if k == 9 {
            } else if k == 10 {
            } else if k == 11 {
            }
        }
        lemma_member_at(m, 12);
    }
    assert(field_of(Json::Object(m), "networkType"@) == Some(m@[13].1)) by {
        reveal_strlit("aliases");
        reveal_strlit("apiUrls");
        reveal_strlit("caip2Id");
        reveal_strlit("docsUrl");
        reveal_strlit("explorerUrls");
        reveal_strlit("firehose");
        reveal_strlit("fullName");
        reveal_strlit("graphNode");
        reveal_strlit("icon");
        reveal_strlit("id");
        reveal_strlit("indexerDocsUrls");
        reveal_strlit("issuanceRewards");
        reveal_strlit("nativeToken");
        reveal_strlit("networkType");
        assert("networkType"@.len() == 11);
        assert("aliases"@.len() == 7);
        assert("apiUrls"@.len() == 7);
        assert("caip2Id"@.len() == 7);
        assert("docsUrl"@.len() == 7);
        assert("explorerUrls"@.len() == 12);
        assert("firehose"@.len() == 8);
        assert("fullName"@.len() == 8);
        assert("graphNode"@.len() == 9);
        assert("icon"@.len() == 4);
        assert("id"@.len() == 2);
        assert("indexerDocsUrls"@.len() == 15);
        assert("issuanceRewards"@.len() == 15);
        assert("nativeToken"@[1] == 'a' && "networkType"@[1] == 'e');
        assert forall|k: int| 0 <= k < 13 implies (#[trigger] m@[k]).0@ != m@[13].0@ by {
            if k == 0 {
            } else if k == 1 {
            } else if k == 2 {
            } else if k == 3 {
            } else if k == 4 {
            } else if k == 5 {
            } else if k == 6 {
            } else if k == 7 {
            } else if k == 8 {
            } else if k == 9 {
            } else if k == 10 {
            } else if k == 11 {
            } else if k == 12 {
            }
        }
        lemma_member_at(m, 13);
    }
    assert(field_of(Json::Object(m), "relations"@) == Some(m@[14].1)) by {
        reveal_strlit("aliases");
        reveal_strlit("apiUrls");
        reveal_strlit("caip2Id");
        reveal_strlit("docsUrl");
        reveal_strlit("explorerUrls");
        reveal_strlit("firehose");
        reveal_strlit("fullName");
        reveal_strlit("graphNode");
        reveal_strlit("icon");
        reveal_strlit("id");
        reveal_strlit("indexerDocsUrls");
        reveal_strlit("issuanceRewards");
        reveal_strlit("nativeToken");
        reveal_strlit("networkType");
        reveal_strlit("relations");
        assert("relations"@.len() == 9);
        assert("aliases"@.len() == 7);
        assert("apiUrls"@.len() == 7);
        assert("caip2Id"@.len() == 7);
        assert("docsUrl"@.len() == 7);
        assert("explorerUrls"@.len() == 12);
        assert("firehose"@.len() == 8);
        assert("fullName"@.len() == 8);
        assert("graphNode"@[0] == 'g' && "relations"@[0] == 'r');
        assert("icon"@.len() == 4);
        assert("id"@.len() == 2);
        assert("indexerDocsUrls"@.len() == 15);
        assert("issuanceRewards"@.len() == 15);
        assert("nativeToken"@.len() == 11);
        assert("networkType"@.len() == 11);
        assert forall|k: int| 0 <= k < 14 implies (#[trigger] m@[k]).0@ != m@[14].0@ by {
            if k == 0 {
            } else if k == 1 {
            } else if k == 2 {
            } else if k == 3 {
            } else if k == 4 {
            } else if k == 5 {
            } else if k == 6 {
            } else if k == 7 {
            } else if k == 8 {
            } else if k == 9 {
            } else if k == 10 {
            } else if k == 11 {
            } else if k == 12 {
            } else if k == 13 {
            }
        }
        lemma_member_at(m, 14);
    }
    assert(field_of(Json::Object(m), "rpcUrls"@) == Some(m@[15].1)) by {
        reveal_strlit("aliases");
        reveal_strlit("apiUrls");
        reveal_strlit("caip2Id");
        reveal_strlit("docsUrl");
        reveal_strlit("explorerUrls");
        reveal_strlit("firehose");
        reveal_strlit("fullName");
        reveal_strlit("graphNode");
        reveal_strlit("icon");
        reveal_strlit("id");
        reveal_strlit("indexerDocsUrls");
        reveal_strlit("issuanceRewards");
        reveal_strlit("nativeToken");
        reveal_strlit("networkType");
        reveal_strlit("relations");
        reveal_strlit("rpcUrls");
        assert("rpcUrls"@.len() == 7);
        assert("aliases"@[0] == 'a' && "rpcUrls"@[0] == 'r');
        assert("apiUrls"@[0] == 'a' && "rpcUrls"@[0] == 'r');
        assert("caip2Id"@[0] == 'c' && "rpcUrls"@[0] == 'r');
        assert("docsUrl"@[0] == 'd' && "rpcUrls"@[0] == 'r');
        assert("explorerUrls"@.len() == 12);
        assert("firehose"@.len() == 8);
        assert("fullName"@.len() == 8);
        assert("graphNode"@.len() == 9);
        assert("icon"@.len() == 4);
        assert("id"@.len() == 2);
        assert("indexerDocsUrls"@.len() == 15);
        assert("issuanceRewards"@.len() == 15);
        assert("nativeToken"@.len() == 11);
        assert("networkType"@.len() == 11);
        assert("relations"@.len() == 9);
        assert forall|k: int| 0 <= k < 15 implies (#[trigger] m@[k]).0@ != m@[15].0@ by {
            if k == 0 {
            } else if k == 1 {
            } else if k == 2 {
            } else if k == 3 {
            } else if k == 4 {
            } else if k == 5 {
            } else if k == 6 {
            } else if k == 7 {
            } else if k == 8 {
            } else if k == 9 {
            } else if k == 10 {
            } else if k == 11 {
            } else if k == 12 {
            } else if k == 13 {
            } else if k == 14 {
            }
        }
        lemma_member_at(m, 15);
    }
    assert(field_of(Json::Object(m), "secondName"@) == Some(m@[16].1)) by {
        reveal_strlit("aliases");
        reveal_strlit("apiUrls");
        reveal_strlit("caip2Id");
        reveal_strlit("docsUrl");
        reveal_strlit("explorerUrls");
        reveal_strlit("firehose");
        reveal_strlit("fullName");
        reveal_strlit("graphNode");
        reveal_strlit("icon");
        reveal_strlit("id");
        reveal_strlit("indexerDocsUrls");
        reveal_strlit("issuanceRewards");
        reveal_strlit("nativeToken");
        reveal_strlit("networkType");
        reveal_strlit("relations");
        reveal_strlit("rpcUrls");
        reveal_strlit("secondName");
        assert("secondName"@.len() == 10);
        assert("aliases"@.len() == 7);
        assert("apiUrls"@.len() == 7);
        assert("caip2Id"@.len() == 7);
        assert("docsUrl"@.len() == 7);
        assert("explorerUrls"@.len() == 12);
        assert("firehose"@.len() == 8);
        assert("fullName"@.len() == 8);
        assert("graphNode"@.len() == 9);
        assert("icon"@.len() == 4);
        assert("id"@.len() == 2);
        assert("indexerDocsUrls"@.len() == 15);
        assert("issuanceRewards"@.len() == 15);
        assert("nativeToken"@.len() == 11);
        assert("networkType"@.len() == 11);
        assert("relations"@.len() == 9);
        assert("rpcUrls"@.len() == 7);
        assert forall|k: int| 0 <= k < 16 implies (#[trigger] m@[k]).0@ != m@[16].0@ by {
            if k == 0 {
            } else if k == 1 {
            } else if k == 2 {
            } else if k == 3 {
            } else if k == 4 {
            } else if k == 5 {
            } else if k == 6 {
            } else if k == 7 {
            } else if k == 8 {
            } else if k == 9 {
            } else if k == 10 {
            } else if k == 11 {
            } else if k == 12 {
            } else if k == 13 {
            } else if k == 14 {
            } else if k == 15 {
            }
        }
        lemma_member_at(m, 16);
    }
    assert(field_of(Json::Object(m), "services"@) == Some(m@[17].1)) by {
        reveal_strlit("aliases");
        reveal_strlit("apiUrls");
        reveal_strlit("caip2Id");
        reveal_strlit("docsUrl");
        reveal_strlit("explorerUrls");
        reveal_strlit("firehose");
        reveal_strlit("fullName");
        reveal_strlit("graphNode");
        reveal_strlit("icon");
        reveal_strlit("id");
        reveal_strlit("indexerDocsUrls");
        reveal_strlit("issuanceRewards");
        reveal_strlit("nativeToken");
        reveal_strlit("networkType");
        reveal_strlit("relations");
        reveal_strlit("rpcUrls");
        reveal_strlit("secondName");
        reveal_strlit("services");
        assert("services"@.len() == 8);
        assert("aliases"@.len() == 7);
        assert("apiUrls"@.len() == 7);
        assert("caip2Id"@.len() == 7);
        assert("docsUrl"@.len() == 7);
        assert("explorerUrls"@.len() == 12);
        assert("firehose"@[0] == 'f' && "services"@[0] == 's');
        assert("fullName"@[0] == 'f' && "services"@[0] == 's');
        assert("graphNode"@.len() == 9);
        assert("icon"@.len() == 4);
        assert("id"@.len() == 2);
        assert("indexerDocsUrls"@.len() == 15);
        assert("issuanceRewards"@.len() == 15);
        assert("nativeToken"@.len() == 11);
        assert("networkType"@.len() == 11);
        assert("relations"@.len() == 9);
        assert("rpcUrls"@.len() == 7);
        assert("secondName"@.len() == 10);
        assert forall|k: int| 0 <= k < 17 implies (#[trigger] m@[k]).0@ != m@[17].0@ by {
            if k == 0 {
            } else if k == 1 {
            } else if k == 2 {
            } else if k == 3 {
            } else if k == 4 {
            } else if k == 5 {
            } else if k == 6 {
            } else if k == 7 {
            } else if k == 8 {
            } else if k == 9 {
            } else if k == 10 {
            } else if k == 11 {
            } else if k == 12 {
            } else if k == 13 {
            } else if k == 14 {
            } else if k == 15 {
            } else if k == 16 {
            }
        }
        lemma_member_at(m, 17);
    }
    assert(field_of(Json::Object(m), "shortName"@) == Some(m@[18].1)) by {
        reveal_strlit("aliases");
        reveal_strlit("apiUrls");
        reveal_strlit("caip2Id");
        reveal_strlit("docsUrl");
        reveal_strlit("explorerUrls");
        reveal_strlit("firehose");
        reveal_strlit("fullName");
        reveal_strlit("graphNode");
        reveal_strlit("icon");
        reveal_strlit("id");
        reveal_strlit("indexerDocsUrls");
        reveal_strlit("issuanceRewards");
        reveal_strlit("nativeToken");
        reveal_strlit("networkType");
        reveal_strlit("relations");
        reveal_strlit("rpcUrls");
        reveal_strlit("secondName");
        reveal_strlit("services");
        reveal_strlit("shortName");
        assert("shortName"@.len() == 9);
        assert("aliases"@.len() == 7);
        assert("apiUrls"@.len() == 7);
        assert("caip2Id"@.len() == 7);
        assert("docsUrl"@.len() == 7);
        assert("explorerUrls"@.len() == 12);
        assert("firehose"@.len() == 8);
        assert("fullName"@.len() == 8);
        assert("graphNode"@[0] == 'g' && "shortName"@[0] == 's');
        assert("icon"@.len() == 4);
        assert("id"@.len() == 2);
        assert("indexerDocsUrls"@.len() == 15);
        assert("issuanceRewards"@.len() == 15);
        assert("nativeToken"@.len() == 11);
        assert("networkType"@.len() == 11);
        assert("relations"@[0] == 'r' && "shortName"@[0] == 's');
        assert("rpcUrls"@.len() == 7);
        assert("secondName"@.len() == 10);
        assert("services"@.len() == 8);
        assert forall|k: int| 0 <= k < 18 implies (#[trigger] m@[k]).0@ != m@[18].0@ by {
            if k == 0 {
            } else if k == 1 {
            } else if k == 2 {
            } else if k == 3 {
            } else if k == 4 {
            } else if k == 5 {
            } else if k == 6 {
            } else if k == 7 {
            } else if k == 8 {
            } else if k == 9 {
            } else if k == 10 {
            } else if k == 11 {
            } else if k == 12 {
            } else if k == 13 {
            } else if k == 14 {
            } else if k == 15 {
            } else if k == 16 {
            } else if k == 17 {
            }
        }
        lemma_member_at(m, 18);
    }
    assert(field_of(Json::Object(m), "tokenApi"@) == Some(m@[19].1)) by {
        reveal_strlit("aliases");
        reveal_strlit("apiUrls");
        reveal_strlit("caip2Id");
        reveal_strlit("docsUrl");
        reveal_strlit("explorerUrls");
        reveal_strlit("firehose");
        reveal_strlit("fullName");
        reveal_strlit("graphNode");
        reveal_strlit("icon");
        reveal_strlit("id");
        reveal_strlit("indexerDocsUrls");
        reveal_strlit("issuanceRewards");
        reveal_strlit("nativeToken");
        reveal_strlit("networkType");
        reveal_strlit("relations");
        reveal_strlit("rpcUrls");
        reveal_strlit("secondName");
        reveal_strlit("services");
        reveal_strlit("shortName");
        reveal_strlit("tokenApi");
        assert("tokenApi"@.len() == 8);
        assert("aliases"@.len() == 7);
        assert("apiUrls"@.len() == 7);
        assert("caip2Id"@.len() == 7);
        assert("docsUrl"@.len() == 7);
        assert("explorerUrls"@.len() == 12);
        assert("firehose"@[0] == 'f' && "tokenApi"@[0] == 't');
        assert("fullName"@[0] == 'f' && "tokenApi"@[0] == 't');
        assert("graphNode"@.len() == 9);
        assert("icon"@.len() == 4);
        assert("id"@.len() == 2);
        assert("indexerDocsUrls"@.len() == 15);
        assert("issuanceRewards"@.len() == 15);
        assert("nativeToken"@.len() == 11);
        assert("networkType"@.len() == 11);
        assert("relations"@.len() == 9);
        assert("rpcUrls"@.len() == 7);
        assert("secondName"@.len() == 10);
        assert("services"@[0] == 's' && "tokenApi"@[0] == 't');
        assert("shortName"@.len() == 9);
        assert forall|k: int| 0 <= k < 19 implies (#[trigger] m@[k]).0@ != m@[19].0@ by {
            if k == 0 {
            } else if k == 1 {
            } else if k == 2 {
            } else if k == 3 {
            } else if k == 4 {
            } else if k == 5 {
            } else if k == 6 {
            } else if k == 7 {
            } else if k == 8 {
            } else if k == 9 {
            } else if k == 10 {
            } else if k == 11 {
            } else if k == 12 {
            } else if k == 13 {
            } else if k == 14 {
            } else if k == 15 {
            } else if k == 16 {
            } else if k == 17 {
            } else if k == 18 {
            }
        }
        lemma_member_at(m, 19);
    }
    Json::Object(m)
}

pub(crate) fn encode_registry(x: &NetworksRegistry) -> (r: Json)
    ensures
        registry_dec(r, *x),
{
    reveal(registry_dec);
    let schema = Json::Text(x.schema.clone());
    let description = Json::Text(x.description.clone());
    let networks = encode_networks(&x.networks);
    let title = Json::Text(x.title.clone());
    let updated_at = Json::Text(x.updated_at.clone());
    let version = Json::Text(x.version.clone());
    let mut m: Vec<(String, Json)> = Vec::new();
    m.push(("$schema".to_owned(), schema));
    m.push(("description".to_owned(), description));
    m.push(("networks".to_owned(), networks));
    m.push(("title".to_owned(), title));
    m.push(("updatedAt".to_owned(), updated_at));
    m.push(("version".to_owned(), version));
    proof {
        reveal_strlit("$schema");
        reveal_strlit("description");
        reveal_strlit("networks");
        reveal_strlit("title");
        reveal_strlit("updatedAt");
        reveal_strlit("version");
        assert("$schema"@.len() == 7);
        assert("description"@.len() == 11);
        assert("networks"@.len() == 8);
        assert("title"@.len() == 5);
        assert("updatedAt"@.len() == 9);
        assert("version"@.len() == 7);
        assert("$schema"@[0] == '$');
        assert("version"@[0] == 'v');
        lemma_member_at(m, 0);
        lemma_member_at(m, 1);
        lemma_member_at(m, 2);
        lemma_member_at(m, 3);
        lemma_member_at(m, 4);
        lemma_member_at(m, 5);
    }
    Json::Object(m)
}

} // verus!
