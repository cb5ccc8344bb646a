//! Decoding is a function: two values decoded from one JSON value agree
//! field for field.

use vstd::prelude::*;
use crate::json::{field_of, Json};
use crate::schema::{
    api_url_dec, api_url_kind_dec, api_urls_dec, bytes_encoding_dec, feature_dec, features_dec,
    firehose_dec, first_block_dec, graph_node_dec, icon_dec, indexer_docs_url_dec,
    indexer_docs_urls_dec, network_dec, network_type_dec, networks_dec, opt_texts_dec,
    protocol_dec, registry_dec, relation_dec, relation_kind_dec, relations_dec, services_dec,
    texts_dec, token_api_dec, web3_icons_dec,
};
use crate::types::{
    ApiUrl, Feature, Firehose, FirstStreamableBlock, GraphNode, Icon, IndexerDocsUrl, Network,
    NetworksRegistry, Relation, Services, TokenApi, Web3Icons,
};

verus! {

// Decoding is a function: what one JSON value decodes to is determined
// field for field (vectors by their contents).

pub open spec fn same_opt_vec<T>(a: Option<Vec<T>>, b: Option<Vec<T>>) -> bool {
    match (a, b) {
        (None, None) => true,
        (Some(x), Some(y)) => x@ == y@,
        _ => false,
    }
}

proof fn lemma_texts_unique(j: Json, a: Seq<String>, b: Seq<String>)
    requires
        texts_dec(j, a),
        texts_dec(j, b),
    ensures
        a == b,
{
    reveal(texts_dec);
    assert(a =~= b);
}

proof fn lemma_opt_texts_unique(f: Option<Json>, a: Option<Vec<String>>, b: Option<Vec<String>>)
    requires
        opt_texts_dec(f, a),
        opt_texts_dec(f, b),
    ensures
        same_opt_vec(a, b),
{
    reveal(texts_dec);
    if a is Some && b is Some {
        lemma_texts_unique(f->0, a->0@, b->0@);
    }
}

proof fn lemma_features_unique(j: Json, a: Seq<Feature>, b: Seq<Feature>)
    requires
        features_dec(j, a),
        features_dec(j, b),
    ensures
        a == b,
{
    reveal(features_dec);
    reveal(feature_dec);
    assert(a =~= b);
}

/// `a` and `b` agree field for field.
pub open spec fn same_first_block(a: FirstStreamableBlock, b: FirstStreamableBlock) -> bool {
    &&& a.height == b.height
    &&& a.id == b.id
}

/// `a` and `b` agree field for field.
pub open spec fn same_graph_node(a: GraphNode, b: GraphNode) -> bool {
    &&& a.deprecated_at == b.deprecated_at
    &&& a.protocol == b.protocol
}

/// `a` and `b` agree field for field.
pub open spec fn same_web3_icons(a: Web3Icons, b: Web3Icons) -> bool {
    &&& a.name == b.name
    &&& same_opt_vec(a.variants, b.variants)
}

/// `a` and `b` agree field for field.
pub open spec fn same_icon(a: Icon, b: Icon) -> bool {
    &&& match (a.web3_icons, b.web3_icons) {
        (None, None) => true,
        (Some(x), Some(y)) => same_web3_icons(x, y),
        _ => false,
    }
}

/// `a` and `b` agree field for field.
pub open spec fn same_indexer_docs_url(a: IndexerDocsUrl, b: IndexerDocsUrl) -> bool {
    &&& a.description == b.description
    &&& a.url == b.url
}

pub open spec fn same_indexer_docs_urls(a: Seq<IndexerDocsUrl>, b: Seq<IndexerDocsUrl>) -> bool {
    &&& a.len() == b.len()
    &&& forall|i: int| 0 <= i < a.len() ==> same_indexer_docs_url(#[trigger] a[i], b[i])
}

/// `a` and `b` agree field for field.
pub open spec fn same_relation(a: Relation, b: Relation) -> bool {
    &&& a.kind == b.kind
    &&& a.network == b.network
}

pub open spec fn same_relations(a: Seq<Relation>, b: Seq<Relation>) -> bool {
    &&& a.len() == b.len()
    &&& forall|i: int| 0 <= i < a.len() ==> same_relation(#[trigger] a[i], b[i])
}

/// `a` and `b` agree field for field.
pub open spec fn same_api_url(a: ApiUrl, b: ApiUrl) -> bool {
    &&& a.kind == b.kind
    &&& a.url == b.url
}

pub open spec fn same_api_urls(a: Seq<ApiUrl>, b: Seq<ApiUrl>) -> bool {
    &&& a.len() == b.len()
    &&& forall|i: int| 0 <= i < a.len() ==> same_api_url(#[trigger] a[i], b[i])
}

/// `a` and `b` agree field for field.
pub open spec fn same_services(a: Services, b: Services) -> bool {
    &&& same_opt_vec(a.firehose, b.firehose)
    &&& same_opt_vec(a.sps, b.sps)
    &&& same_opt_vec(a.subgraphs, b.subgraphs)
    &&& same_opt_vec(a.substreams, b.substreams)
    &&& same_opt_vec(a.token_api, b.token_api)
}

/// `a` and `b` agree field for field.
pub open spec fn same_token_api(a: TokenApi, b: TokenApi) -> bool {
    &&& a.deprecated_at == b.deprecated_at
    &&& same_opt_vec(a.features, b.features)
    &&& a.network_id == b.network_id
}

/// `a` and `b` agree field for field.
pub open spec fn same_firehose(a: Firehose, b: Firehose) -> bool {
    &&& same_opt_vec(a.block_features, b.block_features)
    &&& a.block_type == b.block_type
    &&& a.buf_url == b.buf_url
    &&& a.bytes_encoding == b.bytes_encoding
    &&& a.deprecated_at == b.deprecated_at
    &&& a.evm_extended_model == b.evm_extended_model
    &&& match (a.first_streamable_block, b.first_streamable_block) {
        (None, None) => true,
        (Some(x), Some(y)) => same_first_block(x, y),
        _ => false,
    }
}

/// `a` and `b` agree field for field.
pub open spec fn same_network(a: Network, b: Network) -> bool {
    &&& same_opt_vec(a.aliases, b.aliases)
    &&& match (a.api_urls, b.api_urls) {
        (None, None) => true,
        (Some(x), Some(y)) => same_api_urls(x@, y@),
        _ => false,
    }
    &&& a.caip2_id == b.caip2_id
    &&& a.docs_url == b.docs_url
    &&& same_opt_vec(a.explorer_urls, b.explorer_urls)
    &&& match (a.firehose, b.firehose) {
        (None, None) => true,
        (Some(x), Some(y)) => same_firehose(x, y),
        _ => false,
    }
    &&& a.full_name == b.full_name
    &&& match (a.graph_node, b.graph_node) {
        (None, None) => true,
        (Some(x), Some(y)) => same_graph_node(x, y),
        _ => false,
    }
    &&& match (a.icon, b.icon) {
        (None, None) => true,
        (Some(x), Some(y)) => same_icon(x, y),
        _ => false,
    }
    &&& a.id == b.id
    &&& match (a.indexer_docs_urls, b.indexer_docs_urls) {
        (None, None) => true,
        (Some(x), Some(y)) => same_indexer_docs_urls(x@, y@),
        _ => false,
    }
    &&& a.issuance_rewards == b.issuance_rewards
    &&& a.native_token == b.native_token
    &&& a.network_type == b.network_type
    &&& match (a.relations, b.relations) {
        (None, None) => true,
        (Some(x), Some(y)) => same_relations(x@, y@),
        _ => false,
    }
    &&& same_opt_vec(a.rpc_urls, b.rpc_urls)
    &&& a.second_name == b.second_name
    &&& same_services(a.services, b.services)
    &&& a.short_name == b.short_name
    &&& match (a.token_api, b.token_api) {
        (None, None) => true,
        (Some(x), Some(y)) => same_token_api(x, y),
        _ => false,
    }
}

pub open spec fn same_networks(a: Seq<Network>, b: Seq<Network>) -> bool {
    &&& a.len() == b.len()
    &&& forall|i: int| 0 <= i < a.len() ==> same_network(#[trigger] a[i], b[i])
}

/// `a` and `b` agree field for field.
pub open spec fn same_registry(a: NetworksRegistry, b: NetworksRegistry) -> bool {
    &&& a.schema == b.schema
    &&& a.description == b.description
    &&& same_networks(a.networks@, b.networks@)
    &&& a.title == b.title
    &&& a.updated_at == b.updated_at
    &&& a.version == b.version
}

proof fn lemma_first_block_unique(j: Json, a: FirstStreamableBlock, b: FirstStreamableBlock)
    requires
        first_block_dec(j, a),
        first_block_dec(j, b),
    ensures
        same_first_block(a, b),
{
    reveal(first_block_dec);
}

proof fn lemma_graph_node_unique(j: Json, a: GraphNode, b: GraphNode)
    requires
        graph_node_dec(j, a),
        graph_node_dec(j, b),
    ensures
        same_graph_node(a, b),
{
    reveal(graph_node_dec);
    reveal(protocol_dec);
}

proof fn lemma_web3_icons_unique(j: Json, a: Web3Icons, b: Web3Icons)
    requires
        web3_icons_dec(j, a),
        web3_icons_dec(j, b),
    ensures
        same_web3_icons(a, b),
{
    reveal(web3_icons_dec);
    lemma_opt_texts_unique(field_of(j, "variants"@), a.variants, b.variants);
}

proof fn lemma_icon_unique(j: Json, a: Icon, b: Icon)
    requires
        icon_dec(j, a),
        icon_dec(j, b),
    ensures
        same_icon(a, b),
{
    reveal(icon_dec);
    reveal(web3_icons_dec);
    if a.web3_icons is Some && b.web3_icons is Some {
        lemma_web3_icons_unique(field_of(j, "web3Icons"@)->0, a.web3_icons->0, b.web3_icons->0);
    }
}

proof fn lemma_indexer_docs_url_unique(j: Json, a: IndexerDocsUrl, b: IndexerDocsUrl)
    requires
        indexer_docs_url_dec(j, a),
        indexer_docs_url_dec(j, b),
    ensures
        same_indexer_docs_url(a, b),
{
    reveal(indexer_docs_url_dec);
}

proof fn lemma_indexer_docs_urls_unique(j: Json, a: Seq<IndexerDocsUrl>, b: Seq<IndexerDocsUrl>)
    requires
        indexer_docs_urls_dec(j, a),
        indexer_docs_urls_dec(j, b),
    ensures
        same_indexer_docs_urls(a, b),
{
    reveal(indexer_docs_urls_dec);
    assert forall|i: int| 0 <= i < a.len() implies same_indexer_docs_url(#[trigger] a[i], b[i]) by {
        let items = j->Array_0;
        lemma_indexer_docs_url_unique(items@[i], a[i], b[i]);
    }
}

proof fn lemma_relation_unique(j: Json, a: Relation, b: Relation)
    requires
        relation_dec(j, a),
        relation_dec(j, b),
    ensures
        same_relation(a, b),
{
    reveal(relation_dec);
    reveal(relation_kind_dec);
}

proof fn lemma_relations_unique(j: Json, a: Seq<Relation>, b: Seq<Relation>)
    requires
        relations_dec(j, a),
        relations_dec(j, b),
    ensures
        same_relations(a, b),
{
    reveal(relations_dec);
    assert forall|i: int| 0 <= i < a.len() implies same_relation(#[trigger] a[i], b[i]) by {
        let items = j->Array_0;
        lemma_relation_unique(items@[i], a[i], b[i]);
    }
}

proof fn lemma_api_url_unique(j: Json, a: ApiUrl, b: ApiUrl)
    requires
        api_url_dec(j, a),
        api_url_dec(j, b),
    ensures
        same_api_url(a, b),
{
    reveal(api_url_dec);
    reveal(api_url_kind_dec);
}

proof fn lemma_api_urls_unique(j: Json, a: Seq<ApiUrl>, b: Seq<ApiUrl>)
    requires
        api_urls_dec(j, a),
        api_urls_dec(j, b),
    ensures
        same_api_urls(a, b),
{
    reveal(api_urls_dec);
    assert forall|i: int| 0 <= i < a.len() implies same_api_url(#[trigger] a[i], b[i]) by {
        let items = j->Array_0;
        lemma_api_url_unique(items@[i], a[i], b[i]);
    }
}

proof fn lemma_services_unique(j: Json, a: Services, b: Services)
    requires
        services_dec(j, a),
        services_dec(j, b),
    ensures
        same_services(a, b),
{
    reveal(services_dec);
    lemma_opt_texts_unique(field_of(j, "firehose"@), a.firehose, b.firehose);
    lemma_opt_texts_unique(field_of(j, "sps"@), a.sps, b.sps);
    lemma_opt_texts_unique(field_of(j, "subgraphs"@), a.subgraphs, b.subgraphs);
    lemma_opt_texts_unique(field_of(j, "substreams"@), a.substreams, b.substreams);
    lemma_opt_texts_unique(field_of(j, "tokenApi"@), a.token_api, b.token_api);
}

proof fn lemma_token_api_unique(j: Json, a: TokenApi, b: TokenApi)
    requires
        token_api_dec(j, a),
        token_api_dec(j, b),
    ensures
        same_token_api(a, b),
{
    reveal(token_api_dec);
    reveal(features_dec);
    if a.features is Some && b.features is Some {
        lemma_features_unique(field_of(j, "features"@)->0, a.features->0@, b.features->0@);
    }
}

proof fn lemma_firehose_unique(j: Json, a: Firehose, b: Firehose)
    requires
        firehose_dec(j, a),
        firehose_dec(j, b),
    ensures
        same_firehose(a, b),
{
    reveal(firehose_dec);
    lemma_opt_texts_unique(field_of(j, "blockFeatures"@), a.block_features, b.block_features);
    reveal(bytes_encoding_dec);
    reveal(first_block_dec);
    if a.first_streamable_block is Some && b.first_streamable_block is Some {
        lemma_first_block_unique(field_of(j, "firstStreamableBlock"@)->0, a.first_streamable_block->0, b.first_streamable_block->0);
    }
}

proof fn lemma_network_unique(j: Json, a: Network, b: Network)
    requires
        network_dec(j, a),
        network_dec(j, b),
    ensures
        same_network(a, b),
{
    reveal(network_dec);
    lemma_opt_texts_unique(field_of(j, "aliases"@), a.aliases, b.aliases);
    reveal(api_urls_dec);
    if a.api_urls is Some && b.api_urls is Some {
        lemma_api_urls_unique(field_of(j, "apiUrls"@)->0, a.api_urls->0@, b.api_urls->0@);
    }
    lemma_opt_texts_unique(field_of(j, "explorerUrls"@), a.explorer_urls, b.explorer_urls);
    reveal(firehose_dec);
    if a.firehose is Some && b.firehose is Some {
        lemma_firehose_unique(field_of(j, "firehose"@)->0, a.firehose->0, b.firehose->0);
    }
    reveal(graph_node_dec);
    if a.graph_node is Some && b.graph_node is Some {
        lemma_graph_node_unique(field_of(j, "graphNode"@)->0, a.graph_node->0, b.graph_node->0);
    }
    reveal(icon_dec);
    if a.icon is Some && b.icon is Some {
        lemma_icon_unique(field_of(j, "icon"@)->0, a.icon->0, b.icon->0);
    }
    reveal(indexer_docs_urls_dec);
    if a.indexer_docs_urls is Some && b.indexer_docs_urls is Some {
        lemma_indexer_docs_urls_unique(field_of(j, "indexerDocsUrls"@)->0, a.indexer_docs_urls->0@, b.indexer_docs_urls->0@);
    }
    reveal(network_type_dec);
    reveal(relations_dec);
    if a.relations is Some && b.relations is Some {
        lemma_relations_unique(field_of(j, "relations"@)->0, a.relations->0@, b.relations->0@);
    }
    lemma_opt_texts_unique(field_of(j, "rpcUrls"@), a.rpc_urls, b.rpc_urls);
    lemma_services_unique(field_of(j, "services"@)->0, a.services, b.services);
    reveal(token_api_dec);
    if a.token_api is Some && b.token_api is Some {
        lemma_token_api_unique(field_of(j, "tokenApi"@)->0, a.token_api->0, b.token_api->0);
    }
}

proof fn lemma_networks_unique(j: Json, a: Seq<Network>, b: Seq<Network>)
    requires
        networks_dec(j, a),
        networks_dec(j, b),
    ensures
        same_networks(a, b),
{
    reveal(networks_dec);
    assert forall|i: int| 0 <= i < a.len() implies same_network(#[trigger] a[i], b[i]) by {
        let items = j->Array_0;
        lemma_network_unique(items@[i], a[i], b[i]);
    }
}

pub proof fn lemma_registry_unique(j: Json, a: NetworksRegistry, b: NetworksRegistry)
    requires
        registry_dec(j, a),
        registry_dec(j, b),
    ensures
        same_registry(a, b),
{
    reveal(registry_dec);
    lemma_networks_unique(field_of(j, "networks"@)->0, a.networks@, b.networks@);
}


} // verus!
