//! The registry schema on the wire: what a JSON value decodes to, stated
//! member by member, and the decoders that follow those statements.

use vstd::prelude::*;
use crate::json::{absent, field_of, get_field, Json};
use crate::types::{
    ApiUrl, ApiUrlKind, BytesEncoding, Feature, Firehose, FirstStreamableBlock, GraphNode, Icon,
    IndexerDocsUrl, Network, NetworkType, NetworksRegistry, Protocol, Relation, RelationKind,
    Services, TokenApi, Web3Icons,
};

verus! {

// What a member of an object decodes to, by the shape of the member.

pub open spec fn text_dec(f: Option<Json>, x: String) -> bool {
    f == Some(Json::Text(x))
}

pub open spec fn opt_text_dec(f: Option<Json>, x: Option<String>) -> bool {
    match x {
        None => absent(f),
        Some(s) => f == Some(Json::Text(s)),
    }
}

pub open spec fn bool_dec(f: Option<Json>, x: bool) -> bool {
    f == Some(Json::Bool(x))
}

pub open spec fn opt_bool_dec(f: Option<Json>, x: Option<bool>) -> bool {
    match x {
        None => absent(f),
        Some(b) => f == Some(Json::Bool(b)),
    }
}

pub open spec fn int_dec(f: Option<Json>, x: i64) -> bool {
    f == Some(Json::Number(Some(x)))
}

/// An array of strings.
#[verifier::opaque]
pub open spec fn texts_dec(j: Json, v: Seq<String>) -> bool {
    &&& j matches Json::Array(items)
    &&& items@.len() == v.len()
    &&& forall|i: int| 0 <= i < v.len() ==> items@[i] == Json::Text(#[trigger] v[i])
}

pub open spec fn opt_texts_dec(f: Option<Json>, x: Option<Vec<String>>) -> bool {
    match x {
        None => absent(f),
        Some(v) => f matches Some(j) && texts_dec(j, v@),
    }
}

fn is_object(j: &Json) -> (r: bool)
    ensures
        r == j is Object,
{
    match j {
        Json::Object(_) => true,
        _ => false,
    }
}

fn text_member(j: &Json, key: &str) -> (r: Option<String>)
    ensures
        r matches Some(x) ==> text_dec(field_of(*j, key@), x),
        r is None ==> forall|x: String| !text_dec(field_of(*j, key@), x),
{
    match get_field(j, key) {
        Some(Json::Text(s)) => Some(s.clone()),
        _ => None,
    }
}

fn opt_text_member(j: &Json, key: &str) -> (r: Option<Option<String>>)
    ensures
        r matches Some(x) ==> opt_text_dec(field_of(*j, key@), x),
        r is None ==> forall|x: Option<String>| !opt_text_dec(field_of(*j, key@), x),
{
    match get_field(j, key) {
        None => Some(None),
        Some(Json::Null) => Some(None),
        Some(Json::Text(s)) => Some(Some(s.clone())),
        _ => None,
    }
}

fn bool_member(j: &Json, key: &str) -> (r: Option<bool>)
    ensures
        r matches Some(x) ==> bool_dec(field_of(*j, key@), x),
        r is None ==> forall|x: bool| !bool_dec(field_of(*j, key@), x),
{
    match get_field(j, key) {
        Some(Json::Bool(b)) => Some(*b),
        _ => None,
    }
}

fn opt_bool_member(j: &Json, key: &str) -> (r: Option<Option<bool>>)
    ensures
        r matches Some(x) ==> opt_bool_dec(field_of(*j, key@), x),
        r is None ==> forall|x: Option<bool>| !opt_bool_dec(field_of(*j, key@), x),
{
    match get_field(j, key) {
        None => Some(None),
        Some(Json::Null) => Some(None),
        Some(Json::Bool(b)) => Some(Some(*b)),
        _ => None,
    }
}

fn int_member(j: &Json, key: &str) -> (r: Option<i64>)
    ensures
        r matches Some(x) ==> int_dec(field_of(*j, key@), x),
        r is None ==> forall|x: i64| !int_dec(field_of(*j, key@), x),
{
    match get_field(j, key) {
        Some(Json::Number(Some(n))) => Some(*n),
        _ => None,
    }
}

fn decode_texts(j: &Json) -> (r: Option<Vec<String>>)
    ensures
        r matches Some(v) ==> texts_dec(*j, v@),
        r is None ==> forall|v: Seq<String>| !texts_dec(*j, v),
{
    reveal(texts_dec);
    match j {
        Json::Array(items) => {
            let mut out: Vec<String> = Vec::new();
            let mut i: usize = 0;
            while i < items.len()
                invariant
                    *j == Json::Array(*items),
                    i <= items@.len(),
                    out@.len() == i,
                    forall|k: int| 0 <= k < i ==> items@[k] == Json::Text(#[trigger] out@[k]),
                decreases items.len() - i,
            {
                match &items[i] {
                    Json::Text(s) => {
                        out.push(s.clone());
                    },
                    _ => {
                        assert forall|v: Seq<String>| !texts_dec(*j, v) by {
                            reveal(texts_dec);
                            if texts_dec(*j, v) {
                                assert(items@[i as int] == Json::Text(v[i as int]));
                            }
                        }
                        return None;
                    },
                }
                i = i + 1;
            }
            Some(out)
        },
        _ => None,
    }
}

fn opt_texts_member(j: &Json, key: &str) -> (r: Option<Option<Vec<String>>>)
    ensures
        r matches Some(x) ==> opt_texts_dec(field_of(*j, key@), x),
        r is None ==> forall|x: Option<Vec<String>>| !opt_texts_dec(field_of(*j, key@), x),
{
    match get_field(j, key) {
        None => Some(None),
        Some(Json::Null) => Some(None),
        Some(f) => match decode_texts(f) {
            Some(v) => Some(Some(v)),
            None => None,
        },
    }
}

/// Whether `s` holds the text of `lit`.
fn text_is(s: &String, lit: &str) -> (r: bool)
    ensures
        r == (s@ == lit@),
{
    *s == lit.to_owned()
}

// Unit variants are strings on the wire.

pub open spec fn api_url_kind_of(s: Seq<char>) -> Option<ApiUrlKind> {
    if s == "blockscout"@ {
        Some(ApiUrlKind::Blockscout)
    } else if s == "etherscan"@ {
        Some(ApiUrlKind::Etherscan)
    } else if s == "ethplorer"@ {
        Some(ApiUrlKind::Ethplorer)
    } else if s == "other"@ {
        Some(ApiUrlKind::Other)
    } else if s == "subscan"@ {
        Some(ApiUrlKind::Subscan)
    } else {
        None
    }
}

/// A string that names a variant of `ApiUrlKind`.
#[verifier::opaque]
pub open spec fn api_url_kind_dec(j: Json, x: ApiUrlKind) -> bool {
    j matches Json::Text(s) && api_url_kind_of(s@) == Some(x)
}

fn decode_api_url_kind(j: &Json) -> (r: Option<ApiUrlKind>)
    ensures
        r matches Some(x) ==> api_url_kind_dec(*j, x),
        r is None ==> forall|x: ApiUrlKind| !api_url_kind_dec(*j, x),
{
    reveal(api_url_kind_dec);
    match j {
        Json::Text(s) => {
            if text_is(s, "blockscout") {
                Some(ApiUrlKind::Blockscout)
            } else if text_is(s, "etherscan") {
                Some(ApiUrlKind::Etherscan)
            } else if text_is(s, "ethplorer") {
                Some(ApiUrlKind::Ethplorer)
            } else if text_is(s, "other") {
                Some(ApiUrlKind::Other)
            } else if text_is(s, "subscan") {
                Some(ApiUrlKind::Subscan)
            } else {
                None
            }
        },
        _ => None,
    }
}

pub open spec fn bytes_encoding_of(s: Seq<char>) -> Option<BytesEncoding> {
    if s == "base58"@ {
        Some(BytesEncoding::Base58)
    } else if s == "base64"@ {
        Some(BytesEncoding::Base64)
    } else if s == "hex"@ {
        Some(BytesEncoding::Hex)
    } else if s == "other"@ {
        Some(BytesEncoding::Other)
    } else if s == "0xhex"@ {
        Some(BytesEncoding::The0Xhex)
    } else {
        None
    }
}

/// A string that names a variant of `BytesEncoding`.
#[verifier::opaque]
pub open spec fn bytes_encoding_dec(j: Json, x: BytesEncoding) -> bool {
    j matches Json::Text(s) && bytes_encoding_of(s@) == Some(x)
}

fn decode_bytes_encoding(j: &Json) -> (r: Option<BytesEncoding>)
    ensures
        r matches Some(x) ==> bytes_encoding_dec(*j, x),
        r is None ==> forall|x: BytesEncoding| !bytes_encoding_dec(*j, x),
{
    reveal(bytes_encoding_dec);
    match j {
        Json::Text(s) => {
            if text_is(s, "base58") {
                Some(BytesEncoding::Base58)
            } else if text_is(s, "base64") {
                Some(BytesEncoding::Base64)
            } else if text_is(s, "hex") {
                Some(BytesEncoding::Hex)
            } else if text_is(s, "other") {
                Some(BytesEncoding::Other)
            } else if text_is(s, "0xhex") {
                Some(BytesEncoding::The0Xhex)
            } else {
                None
            }
        },
        _ => None,
    }
}

pub open spec fn protocol_of(s: Seq<char>) -> Option<Protocol> {
    if s == "arweave"@ {
        Some(Protocol::Arweave)
    } else if s == "cosmos"@ {
        Some(Protocol::Cosmos)
    } else if s == "ethereum"@ {
        Some(Protocol::Ethereum)
    } else if s == "near"@ {
        Some(Protocol::Near)
    } else if s == "other"@ {
        Some(Protocol::Other)
    } else if s == "starknet"@ {
        Some(Protocol::Starknet)
    } else {
        None
    }
}

/// A string that names a variant of `Protocol`.
#[verifier::opaque]
pub open spec fn protocol_dec(j: Json, x: Protocol) -> bool {
    j matches Json::Text(s) && protocol_of(s@) == Some(x)
}

fn decode_protocol(j: &Json) -> (r: Option<Protocol>)
    ensures
        r matches Some(x) ==> protocol_dec(*j, x),
        r is None ==> forall|x: Protocol| !protocol_dec(*j, x),
{
    reveal(protocol_dec);
    match j {
        Json::Text(s) => {
            if text_is(s, "arweave") {
                Some(Protocol::Arweave)
            } else if text_is(s, "cosmos") {
                Some(Protocol::Cosmos)
            } else if text_is(s, "ethereum") {
                Some(Protocol::Ethereum)
            } else if text_is(s, "near") {
                Some(Protocol::Near)
            } else if text_is(s, "other") {
                Some(Protocol::Other)
            } else if text_is(s, "starknet") {
                Some(Protocol::Starknet)
            } else {
                None
            }
        },
        _ => None,
    }
}

pub open spec fn network_type_of(s: Seq<char>) -> Option<NetworkType> {
    if s == "beacon"@ {
        Some(NetworkType::Beacon)
    } else if s == "devnet"@ {
        Some(NetworkType::Devnet)
    } else if s == "mainnet"@ {
        Some(NetworkType::Mainnet)
    } else if s == "testnet"@ {
        Some(NetworkType::Testnet)
    } else {
        None
    }
}

/// A string that names a variant of `NetworkType`.
#[verifier::opaque]
pub open spec fn network_type_dec(j: Json, x: NetworkType) -> bool {
    j matches Json::Text(s) && network_type_of(s@) == Some(x)
}

fn decode_network_type(j: &Json) -> (r: Option<NetworkType>)
    ensures
        r matches Some(x) ==> network_type_dec(*j, x),
        r is None ==> forall|x: NetworkType| !network_type_dec(*j, x),
{
    reveal(network_type_dec);
    match j {
        Json::Text(s) => {
            if text_is(s, "beacon") {
                Some(NetworkType::Beacon)
            } else if text_is(s, "devnet") {
                Some(NetworkType::Devnet)
            } else if text_is(s, "mainnet") {
                Some(NetworkType::Mainnet)
            } else if text_is(s, "testnet") {
                Some(NetworkType::Testnet)
            } else {
                None
            }
        },
        _ => None,
    }
}

pub open spec fn relation_kind_of(s: Seq<char>) -> Option<RelationKind> {
    if s == "beaconOf"@ {
        Some(RelationKind::BeaconOf)
    } else if s == "evmOf"@ {
        Some(RelationKind::EvmOf)
    } else if s == "forkedFrom"@ {
        Some(RelationKind::ForkedFrom)
    } else if s == "l2Of"@ {
        Some(RelationKind::L2Of)
    } else if s == "other"@ {
        Some(RelationKind::Other)
    } else if s == "shardOf"@ {
        Some(RelationKind::ShardOf)
    } else if s == "svmOf"@ {
        Some(RelationKind::SvmOf)
    } else if s == "testnetOf"@ {
        Some(RelationKind::TestnetOf)
    } else {
        None
    }
}

/// A string that names a variant of `RelationKind`.
#[verifier::opaque]
pub open spec fn relation_kind_dec(j: Json, x: RelationKind) -> bool {
    j matches Json::Text(s) && relation_kind_of(s@) == Some(x)
}

fn decode_relation_kind(j: &Json) -> (r: Option<RelationKind>)
    ensures
        r matches Some(x) ==> relation_kind_dec(*j, x),
        r is None ==> forall|x: RelationKind| !relation_kind_dec(*j, x),
{
    reveal(relation_kind_dec);
    match j {
        Json::Text(s) => {
            if text_is(s, "beaconOf") {
                Some(RelationKind::BeaconOf)
            } else if text_is(s, "evmOf") {
                Some(RelationKind::EvmOf)
            } else if text_is(s, "forkedFrom") {
                Some(RelationKind::ForkedFrom)
            } else if text_is(s, "l2Of") {
                Some(RelationKind::L2Of)
            } else if text_is(s, "other") {
                Some(RelationKind::Other)
            } else if text_is(s, "shardOf") {
                Some(RelationKind::ShardOf)
            } else if text_is(s, "svmOf") {
                Some(RelationKind::SvmOf)
            } else if text_is(s, "testnetOf") {
                Some(RelationKind::TestnetOf)
            } else {
                None
            }
        },
        _ => None,
    }
}

pub open spec fn feature_of(s: Seq<char>) -> Option<Feature> {
    if s == "dexes"@ {
        Some(Feature::Dexes)
    } else if s == "nfts"@ {
        Some(Feature::Nfts)
    } else if s == "other"@ {
        Some(Feature::Other)
    } else if s == "tokens"@ {
        Some(Feature::Tokens)
    } else {
        None
    }
}

/// A string that names a variant of `Feature`.
#[verifier::opaque]
pub open spec fn feature_dec(j: Json, x: Feature) -> bool {
    j matches Json::Text(s) && feature_of(s@) == Some(x)
}

fn decode_feature(j: &Json) -> (r: Option<Feature>)
    ensures
        r matches Some(x) ==> feature_dec(*j, x),
        r is None ==> forall|x: Feature| !feature_dec(*j, x),
{
    reveal(feature_dec);
    match j {
        Json::Text(s) => {
            if text_is(s, "dexes") {
                Some(Feature::Dexes)
            } else if text_is(s, "nfts") {
                Some(Feature::Nfts)
            } else if text_is(s, "other") {
                Some(Feature::Other)
            } else if text_is(s, "tokens") {
                Some(Feature::Tokens)
            } else {
                None
            }
        },
        _ => None,
    }
}

pub open spec fn opt_protocol_dec(f: Option<Json>, x: Option<Protocol>) -> bool {
    match x {
        None => absent(f),
        Some(y) => f matches Some(j) && protocol_dec(j, y),
    }
}

fn opt_protocol_member(j: &Json, key: &str) -> (r: Option<Option<Protocol>>)
    ensures
        r matches Some(x) ==> opt_protocol_dec(field_of(*j, key@), x),
        r is None ==> forall|x: Option<Protocol>| !opt_protocol_dec(field_of(*j, key@), x),
{
    match get_field(j, key) {
        None => Some(None),
        Some(Json::Null) => Some(None),
        Some(f) => match decode_protocol(f) {
            Some(y) => Some(Some(y)),
            None => None,
        },
    }
}

pub open spec fn opt_first_block_dec(f: Option<Json>, x: Option<FirstStreamableBlock>) -> bool {
    match x {
        None => absent(f),
        Some(y) => f matches Some(j) && first_block_dec(j, y),
    }
}

fn opt_first_block_member(j: &Json, key: &str) -> (r: Option<Option<FirstStreamableBlock>>)
    ensures
        r matches Some(x) ==> opt_first_block_dec(field_of(*j, key@), x),
        r is None ==> forall|x: Option<FirstStreamableBlock>| !opt_first_block_dec(field_of(*j, key@), x),
{
    match get_field(j, key) {
        None => Some(None),
        Some(Json::Null) => Some(None),
        Some(f) => match decode_first_block(f) {
            Some(y) => Some(Some(y)),
            None => None,
        },
    }
}

pub open spec fn opt_web3_icons_dec(f: Option<Json>, x: Option<Web3Icons>) -> bool {
    match x {
        None => absent(f),
        Some(y) => f matches Some(j) && web3_icons_dec(j, y),
    }
}

fn opt_web3_icons_member(j: &Json, key: &str) -> (r: Option<Option<Web3Icons>>)
    ensures
        r matches Some(x) ==> opt_web3_icons_dec(field_of(*j, key@), x),
        r is None ==> forall|x: Option<Web3Icons>| !opt_web3_icons_dec(field_of(*j, key@), x),
{
    match get_field(j, key) {
        None => Some(None),
        Some(Json::Null) => Some(None),
        Some(f) => match decode_web3_icons(f) {
            Some(y) => Some(Some(y)),
            None => None,
        },
    }
}

pub open spec fn opt_firehose_dec(f: Option<Json>, x: Option<Firehose>) -> bool {
    match x {
        None => absent(f),
        Some(y) => f matches Some(j) && firehose_dec(j, y),
    }
}

fn opt_firehose_member(j: &Json, key: &str) -> (r: Option<Option<Firehose>>)
    ensures
        r matches Some(x) ==> opt_firehose_dec(field_of(*j, key@), x),
        r is None ==> forall|x: Option<Firehose>| !opt_firehose_dec(field_of(*j, key@), x),
{
    match get_field(j, key) {
        None => Some(None),
        Some(Json::Null) => Some(None),
        Some(f) => match decode_firehose(f) {
            Some(y) => Some(Some(y)),
            None => None,
        },
    }
}

pub open spec fn opt_graph_node_dec(f: Option<Json>, x: Option<GraphNode>) -> bool {
    match x {
        None => absent(f),
        Some(y) => f matches Some(j) && graph_node_dec(j, y),
    }
}

fn opt_graph_node_member(j: &Json, key: &str) -> (r: Option<Option<GraphNode>>)
    ensures
        r matches Some(x) ==> opt_graph_node_dec(field_of(*j, key@), x),
        r is None ==> forall|x: Option<GraphNode>| !opt_graph_node_dec(field_of(*j, key@), x),
{
    match get_field(j, key) {
        None => Some(None),
        Some(Json::Null) => Some(None),
        Some(f) => match decode_graph_node(f) {
            Some(y) => Some(Some(y)),
            None => None,
        },
    }
}

pub open spec fn opt_icon_dec(f: Option<Json>, x: Option<Icon>) -> bool {
    match x {
        None => absent(f),
        Some(y) => f matches Some(j) && icon_dec(j, y),
    }
}

fn opt_icon_member(j: &Json, key: &str) -> (r: Option<Option<Icon>>)
    ensures
        r matches Some(x) ==> opt_icon_dec(field_of(*j, key@), x),
        r is None ==> forall|x: Option<Icon>| !opt_icon_dec(field_of(*j, key@), x),
{
    match get_field(j, key) {
        None => Some(None),
        Some(Json::Null) => Some(None),
        Some(f) => match decode_icon(f) {
            Some(y) => Some(Some(y)),
            None => None,
        },
    }
}

pub open spec fn opt_token_api_dec(f: Option<Json>, x: Option<TokenApi>) -> bool {
    match x {
        None => absent(f),
        Some(y) => f matches Some(j) && token_api_dec(j, y),
    }
}

fn opt_token_api_member(j: &Json, key: &str) -> (r: Option<Option<TokenApi>>)
    ensures
        r matches Some(x) ==> opt_token_api_dec(field_of(*j, key@), x),
        r is None ==> forall|x: Option<TokenApi>| !opt_token_api_dec(field_of(*j, key@), x),
{
    match get_field(j, key) {
        None => Some(None),
        Some(Json::Null) => Some(None),
        Some(f) => match decode_token_api(f) {
            Some(y) => Some(Some(y)),
            None => None,
        },
    }
}

/// An array of `Feature`s.
#[verifier::opaque]
pub open spec fn features_dec(j: Json, v: Seq<Feature>) -> bool {
    &&& j matches Json::Array(items)
    &&& items@.len() == v.len()
    &&& forall|i: int| 0 <= i < v.len() ==> feature_dec(items@[i], #[trigger] v[i])
}

fn decode_features(j: &Json) -> (r: Option<Vec<Feature>>)
    ensures
        r matches Some(v) ==> features_dec(*j, v@),
        r is None ==> forall|v: Seq<Feature>| !features_dec(*j, v),
{
    reveal(features_dec);
    match j {
        Json::Array(items) => {
            let mut out: Vec<Feature> = Vec::new();
            let mut i: usize = 0;
            while i < items.len()
                invariant
                    *j == Json::Array(*items),
                    i <= items@.len(),
                    out@.len() == i,
                    forall|k: int| 0 <= k < i ==> feature_dec(items@[k], #[trigger] out@[k]),
                decreases items.len() - i,
            {
                match decode_feature(&items[i]) {
                    Some(x) => {
                        out.push(x);
                    },
                    None => {
                        assert forall|v: Seq<Feature>| !features_dec(*j, v) by {
                            reveal(features_dec);
                            if features_dec(*j, v) {
                                assert(feature_dec(items@[i as int], v[i as int]));
                            }
                        }
                        return None;
                    },
                }
                i = i + 1;
            }
            Some(out)
        },
        _ => None,
    }
}

pub open spec fn opt_features_dec(f: Option<Json>, x: Option<Vec<Feature>>) -> bool {
    match x {
        None => absent(f),
        Some(v) => f matches Some(j) && features_dec(j, v@),
    }
}

fn opt_features_member(j: &Json, key: &str) -> (r: Option<Option<Vec<Feature>>>)
    ensures
        r matches Some(x) ==> opt_features_dec(field_of(*j, key@), x),
        r is None ==> forall|x: Option<Vec<Feature>>| !opt_features_dec(field_of(*j, key@), x),
{
    match get_field(j, key) {
        None => Some(None),
        Some(Json::Null) => Some(None),
        Some(f) => match decode_features(f) {
            Some(v) => Some(Some(v)),
            None => None,
        },
    }
}

/// An array of `ApiUrl`s.
#[verifier::opaque]
pub open spec fn api_urls_dec(j: Json, v: Seq<ApiUrl>) -> bool {
    &&& j matches Json::Array(items)
    &&& items@.len() == v.len()
    &&& forall|i: int| 0 <= i < v.len() ==> api_url_dec(items@[i], #[trigger] v[i])
}

fn decode_api_urls(j: &Json) -> (r: Option<Vec<ApiUrl>>)
    ensures
        r matches Some(v) ==> api_urls_dec(*j, v@),
        r is None ==> forall|v: Seq<ApiUrl>| !api_urls_dec(*j, v),
{
    reveal(api_urls_dec);
    match j {
        Json::Array(items) => {
            let mut out: Vec<ApiUrl> = Vec::new();
            let mut i: usize = 0;
            while i < items.len()
                invariant
                    *j == Json::Array(*items),
                    i <= items@.len(),
                    out@.len() == i,
                    forall|k: int| 0 <= k < i ==> api_url_dec(items@[k], #[trigger] out@[k]),
                decreases items.len() - i,
            {
                match decode_api_url(&items[i]) {
                    Some(x) => {
                        out.push(x);
                    },
                    None => {
                        assert forall|v: Seq<ApiUrl>| !api_urls_dec(*j, v) by {
                            reveal(api_urls_dec);
                            if api_urls_dec(*j, v) {
                                assert(api_url_dec(items@[i as int], v[i as int]));
                            }
                        }
                        return None;
                    },
                }
                i = i + 1;
            }
            Some(out)
        },
        _ => None,
    }
}

pub open spec fn opt_api_urls_dec(f: Option<Json>, x: Option<Vec<ApiUrl>>) -> bool {
    match x {
        None => absent(f),
        Some(v) => f matches Some(j) && api_urls_dec(j, v@),
    }
}

fn opt_api_urls_member(j: &Json, key: &str) -> (r: Option<Option<Vec<ApiUrl>>>)
    ensures
        r matches Some(x) ==> opt_api_urls_dec(field_of(*j, key@), x),
        r is None ==> forall|x: Option<Vec<ApiUrl>>| !opt_api_urls_dec(field_of(*j, key@), x),
{
    match get_field(j, key) {
        None => Some(None),
        Some(Json::Null) => Some(None),
        Some(f) => match decode_api_urls(f) {
            Some(v) => Some(Some(v)),
            None => None,
        },
    }
}

/// An array of `IndexerDocsUrl`s.
#[verifier::opaque]
pub open spec fn indexer_docs_urls_dec(j: Json, v: Seq<IndexerDocsUrl>) -> bool {
    &&& j matches Json::Array(items)
    &&& items@.len() == v.len()
    &&& forall|i: int| 0 <= i < v.len() ==> indexer_docs_url_dec(items@[i], #[trigger] v[i])
}

fn decode_indexer_docs_urls(j: &Json) -> (r: Option<Vec<IndexerDocsUrl>>)
    ensures
        r matches Some(v) ==> indexer_docs_urls_dec(*j, v@),
        r is None ==> forall|v: Seq<IndexerDocsUrl>| !indexer_docs_urls_dec(*j, v),
{
    reveal(indexer_docs_urls_dec);
    match j {
        Json::Array(items) => {
            let mut out: Vec<IndexerDocsUrl> = Vec::new();
            let mut i: usize = 0;
            while i < items.len()
                invariant
                    *j == Json::Array(*items),
                    i <= items@.len(),
                    out@.len() == i,
                    forall|k: int| 0 <= k < i ==> indexer_docs_url_dec(items@[k], #[trigger] out@[k]),
                decreases items.len() - i,
            {
                match decode_indexer_docs_url(&items[i]) {
                    Some(x) => {
                        out.push(x);
                    },
                    None => {
                        assert forall|v: Seq<IndexerDocsUrl>| !indexer_docs_urls_dec(*j, v) by {
                            reveal(indexer_docs_urls_dec);
                            if indexer_docs_urls_dec(*j, v) {
                                assert(indexer_docs_url_dec(items@[i as int], v[i as int]));
                            }
                        }
                        return None;
                    },
                }
                i = i + 1;
            }
            Some(out)
        },
        _ => None,
    }
}

pub open spec fn opt_indexer_docs_urls_dec(f: Option<Json>, x: Option<Vec<IndexerDocsUrl>>) -> bool {
    match x {
        None => absent(f),
        Some(v) => f matches Some(j) && indexer_docs_urls_dec(j, v@),
    }
}

fn opt_indexer_docs_urls_member(j: &Json, key: &str) -> (r: Option<Option<Vec<IndexerDocsUrl>>>)
    ensures
        r matches Some(x) ==> opt_indexer_docs_urls_dec(field_of(*j, key@), x),
        r is None ==> forall|x: Option<Vec<IndexerDocsUrl>>| !opt_indexer_docs_urls_dec(field_of(*j, key@), x),
{
    match get_field(j, key) {
        None => Some(None),
        Some(Json::Null) => Some(None),
        Some(f) => match decode_indexer_docs_urls(f) {
            Some(v) => Some(Some(v)),
            None => None,
        },
    }
}

/// An array of `Relation`s.
#[verifier::opaque]
pub open spec fn relations_dec(j: Json, v: Seq<Relation>) -> bool {
    &&& j matches Json::Array(items)
    &&& items@.len() == v.len()
    &&& forall|i: int| 0 <= i < v.len() ==> relation_dec(items@[i], #[trigger] v[i])
}

fn decode_relations(j: &Json) -> (r: Option<Vec<Relation>>)
    ensures
        r matches Some(v) ==> relations_dec(*j, v@),
        r is None ==> forall|v: Seq<Relation>| !relations_dec(*j, v),
{
    reveal(relations_dec);
    match j {
        Json::Array(items) => {
            let mut out: Vec<Relation> = Vec::new();
            let mut i: usize = 0;
            while i < items.len()
                invariant
                    *j == Json::Array(*items),
                    i <= items@.len(),
                    out@.len() == i,
                    forall|k: int| 0 <= k < i ==> relation_dec(items@[k], #[trigger] out@[k]),
                decreases items.len() - i,
            {
                match decode_relation(&items[i]) {
                    Some(x) => {
                        out.push(x);
                    },
                    None => {
                        assert forall|v: Seq<Relation>| !relations_dec(*j, v) by {
                            reveal(relations_dec);
                            if relations_dec(*j, v) {
                                assert(relation_dec(items@[i as int], v[i as int]));
                            }
                        }
                        return None;
                    },
                }
                i = i + 1;
            }
            Some(out)
        },
        _ => None,
    }
}

pub open spec fn opt_relations_dec(f: Option<Json>, x: Option<Vec<Relation>>) -> bool {
    match x {
        None => absent(f),
        Some(v) => f matches Some(j) && relations_dec(j, v@),
    }
}

fn opt_relations_member(j: &Json, key: &str) -> (r: Option<Option<Vec<Relation>>>)
    ensures
        r matches Some(x) ==> opt_relations_dec(field_of(*j, key@), x),
        r is None ==> forall|x: Option<Vec<Relation>>| !opt_relations_dec(field_of(*j, key@), x),
{
    match get_field(j, key) {
        None => Some(None),
        Some(Json::Null) => Some(None),
        Some(f) => match decode_relations(f) {
            Some(v) => Some(Some(v)),
            None => None,
        },
    }
}

/// An array of `Network`s.
#[verifier::opaque]
pub open spec fn networks_dec(j: Json, v: Seq<Network>) -> bool {
    &&& j matches Json::Array(items)
    &&& items@.len() == v.len()
    &&& forall|i: int| 0 <= i < v.len() ==> network_dec(items@[i], #[trigger] v[i])
}

fn decode_networks(j: &Json) -> (r: Option<Vec<Network>>)
    ensures
        r matches Some(v) ==> networks_dec(*j, v@),
        r is None ==> forall|v: Seq<Network>| !networks_dec(*j, v),
{
    reveal(networks_dec);
    match j {
        Json::Array(items) => {
            let mut out: Vec<Network> = Vec::new();
            let mut i: usize = 0;
            while i < items.len()
                invariant
                    *j == Json::Array(*items),
                    i <= items@.len(),
                    out@.len() == i,
                    forall|k: int| 0 <= k < i ==> network_dec(items@[k], #[trigger] out@[k]),
                decreases items.len() - i,
            {
                match decode_network(&items[i]) {
                    Some(x) => {
                        out.push(x);
                    },
                    None => {
                        assert forall|v: Seq<Network>| !networks_dec(*j, v) by {
                            reveal(networks_dec);
                            if networks_dec(*j, v) {
                                assert(network_dec(items@[i as int], v[i as int]));
                            }
                        }
                        return None;
                    },
                }
                i = i + 1;
            }
            Some(out)
        },
        _ => None,
    }
}

/// An object that decodes to `x`; members it does not name are ignored.
#[verifier::opaque]
pub open spec fn first_block_dec(j: Json, x: FirstStreamableBlock) -> bool {
    &&& j is Object
    &&& int_dec(field_of(j, "height"@), x.height)
    &&& text_dec(field_of(j, "id"@), x.id)
}

fn decode_first_block(j: &Json) -> (r: Option<FirstStreamableBlock>)
    ensures
        r matches Some(x) ==> first_block_dec(*j, x),
        r is None ==> forall|x: FirstStreamableBlock| !first_block_dec(*j, x),
{
    reveal(first_block_dec);
    if !is_object(j) {
        return None;
    }
    let height = int_member(j, "height")?;
    let id = text_member(j, "id")?;
    Some(FirstStreamableBlock { height, id })
}

/// An object that decodes to `x`; members it does not name are ignored.
#[verifier::opaque]
pub open spec fn graph_node_dec(j: Json, x: GraphNode) -> bool {
    &&& j is Object
    &&& opt_text_dec(field_of(j, "deprecatedAt"@), x.deprecated_at)
    &&& opt_protocol_dec(field_of(j, "protocol"@), x.protocol)
}

fn decode_graph_node(j: &Json) -> (r: Option<GraphNode>)
    ensures
        r matches Some(x) ==> graph_node_dec(*j, x),
        r is None ==> forall|x: GraphNode| !graph_node_dec(*j, x),
{
    reveal(graph_node_dec);
    if !is_object(j) {
        return None;
    }
    let deprecated_at = opt_text_member(j, "deprecatedAt")?;
    let protocol = opt_protocol_member(j, "protocol")?;
    Some(GraphNode { deprecated_at, protocol })
}

/// An object that decodes to `x`; members it does not name are ignored.
#[verifier::opaque]
pub open spec fn web3_icons_dec(j: Json, x: Web3Icons) -> bool {
    &&& j is Object
    &&& text_dec(field_of(j, "name"@), x.name)
    &&& opt_texts_dec(field_of(j, "variants"@), x.variants)
}

fn decode_web3_icons(j: &Json) -> (r: Option<Web3Icons>)
    ensures
        r matches Some(x) ==> web3_icons_dec(*j, x),
        r is None ==> forall|x: Web3Icons| !web3_icons_dec(*j, x),
{
    reveal(web3_icons_dec);
    if !is_object(j) {
        return None;
    }
    let name = text_member(j, "name")?;
    let variants = opt_texts_member(j, "variants")?;
    Some(Web3Icons { name, variants })
}

/// An object that decodes to `x`; members it does not name are ignored.
#[verifier::opaque]
pub open spec fn icon_dec(j: Json, x: Icon) -> bool {
    &&& j is Object
    &&& opt_web3_icons_dec(field_of(j, "web3Icons"@), x.web3_icons)
}

fn decode_icon(j: &Json) -> (r: Option<Icon>)
    ensures
        r matches Some(x) ==> icon_dec(*j, x),
        r is None ==> forall|x: Icon| !icon_dec(*j, x),
{
    reveal(icon_dec);
    if !is_object(j) {
        return None;
    }
    let web3_icons = opt_web3_icons_member(j, "web3Icons")?;
    Some(Icon { web3_icons })
}

/// An object that decodes to `x`; members it does not name are ignored.
#[verifier::opaque]
pub open spec fn indexer_docs_url_dec(j: Json, x: IndexerDocsUrl) -> bool {
    &&& j is Object
    &&& opt_text_dec(field_of(j, "description"@), x.description)
    &&& text_dec(field_of(j, "url"@), x.url)
}

fn decode_indexer_docs_url(j: &Json) -> (r: Option<IndexerDocsUrl>)
    ensures
        r matches Some(x) ==> indexer_docs_url_dec(*j, x),
        r is None ==> forall|x: IndexerDocsUrl| !indexer_docs_url_dec(*j, x),
{
    reveal(indexer_docs_url_dec);
    if !is_object(j) {
        return None;
    }
    let description = opt_text_member(j, "description")?;
    let url = text_member(j, "url")?;
    Some(IndexerDocsUrl { description, url })
}

/// An object that decodes to `x`; members it does not name are ignored.
#[verifier::opaque]
pub open spec fn relation_dec(j: Json, x: Relation) -> bool {
    &&& j is Object
    &&& field_of(j, "kind"@) matches Some(v) && relation_kind_dec(v, x.kind)
    &&& text_dec(field_of(j, "network"@), x.network)
}

fn decode_relation(j: &Json) -> (r: Option<Relation>)
    ensures
        r matches Some(x) ==> relation_dec(*j, x),
        r is None ==> forall|x: Relation| !relation_dec(*j, x),
{
    reveal(relation_dec);
    if !is_object(j) {
        return None;
    }
    let kind = decode_relation_kind(get_field(j, "kind")?)?;
    let network = text_member(j, "network")?;
    Some(Relation { kind, network })
}

/// An object that decodes to `x`; members it does not name are ignored.
#[verifier::opaque]
pub open spec fn api_url_dec(j: Json, x: ApiUrl) -> bool {
    &&& j is Object
    &&& field_of(j, "kind"@) matches Some(v) && api_url_kind_dec(v, x.kind)
    &&& text_dec(field_of(j, "url"@), x.url)
}

fn decode_api_url(j: &Json) -> (r: Option<ApiUrl>)
    ensures
        r matches Some(x) ==> api_url_dec(*j, x),
        r is None ==> forall|x: ApiUrl| !api_url_dec(*j, x),
{
    reveal(api_url_dec);
    if !is_object(j) {
        return None;
    }
    let kind = decode_api_url_kind(get_field(j, "kind")?)?;
    let url = text_member(j, "url")?;
    Some(ApiUrl { kind, url })
}

/// An object that decodes to `x`; members it does not name are ignored.
#[verifier::opaque]
pub open spec fn services_dec(j: Json, x: Services) -> bool {
    &&& j is Object
    &&& opt_texts_dec(field_of(j, "firehose"@), x.firehose)
    &&& opt_texts_dec(field_of(j, "sps"@), x.sps)
    &&& opt_texts_dec(field_of(j, "subgraphs"@), x.subgraphs)
    &&& opt_texts_dec(field_of(j, "substreams"@), x.substreams)
    &&& opt_texts_dec(field_of(j, "tokenApi"@), x.token_api)
}

fn decode_services(j: &Json) -> (r: Option<Services>)
    ensures
        r matches Some(x) ==> services_dec(*j, x),
        r is None ==> forall|x: Services| !services_dec(*j, x),
{
    reveal(services_dec);
    if !is_object(j) {
        return None;
    }
    let firehose = opt_texts_member(j, "firehose")?;
    let sps = opt_texts_member(j, "sps")?;
    let subgraphs = opt_texts_member(j, "subgraphs")?;
    let substreams = opt_texts_member(j, "substreams")?;
    let token_api = opt_texts_member(j, "tokenApi")?;
    Some(Services { firehose, sps, subgraphs, substreams, token_api })
}

/// An object that decodes to `x`; members it does not name are ignored.
#[verifier::opaque]
pub open spec fn token_api_dec(j: Json, x: TokenApi) -> bool {
    &&& j is Object
    &&& opt_text_dec(field_of(j, "deprecatedAt"@), x.deprecated_at)
    &&& opt_features_dec(field_of(j, "features"@), x.features)
    &&& opt_text_dec(field_of(j, "networkId"@), x.network_id)
}

fn decode_token_api(j: &Json) -> (r: Option<TokenApi>)
    ensures
        r matches Some(x) ==> token_api_dec(*j, x),
        r is None ==> forall|x: TokenApi| !token_api_dec(*j, x),
{
    reveal(token_api_dec);
    if !is_object(j) {
        return None;
    }
    let deprecated_at = opt_text_member(j, "deprecatedAt")?;
    let features = opt_features_member(j, "features")?;
    let network_id = opt_text_member(j, "networkId")?;
    Some(TokenApi { deprecated_at, features, network_id })
}

/// An object that decodes to `x`; members it does not name are ignored.
#[verifier::opaque]
pub open spec fn firehose_dec(j: Json, x: Firehose) -> bool {
    &&& j is Object
    &&& opt_texts_dec(field_of(j, "blockFeatures"@), x.block_features)
    &&& text_dec(field_of(j, "blockType"@), x.block_type)
    &&& text_dec(field_of(j, "bufUrl"@), x.buf_url)
    &&& field_of(j, "bytesEncoding"@) matches Some(v) && bytes_encoding_dec(v, x.bytes_encoding)
    &&& opt_text_dec(field_of(j, "deprecatedAt"@), x.deprecated_at)
    &&& opt_bool_dec(field_of(j, "evmExtendedModel"@), x.evm_extended_model)
    &&& opt_first_block_dec(field_of(j, "firstStreamableBlock"@), x.first_streamable_block)
}

fn decode_firehose(j: &Json) -> (r: Option<Firehose>)
    ensures
        r matches Some(x) ==> firehose_dec(*j, x),
        r is None ==> forall|x: Firehose| !firehose_dec(*j, x),
{
    reveal(firehose_dec);
    if !is_object(j) {
        return None;
    }
    let block_features = opt_texts_member(j, "blockFeatures")?;
    let block_type = text_member(j, "blockType")?;
    let buf_url = text_member(j, "bufUrl")?;
    let bytes_encoding = decode_bytes_encoding(get_field(j, "bytesEncoding")?)?;
    let deprecated_at = opt_text_member(j, "deprecatedAt")?;
    let evm_extended_model = opt_bool_member(j, "evmExtendedModel")?;
    let first_streamable_block = opt_first_block_member(j, "firstStreamableBlock")?;
    Some(Firehose { block_features, block_type, buf_url, bytes_encoding, deprecated_at, evm_extended_model, first_streamable_block })
}

/// An object that decodes to `x`; members it does not name are ignored.
#[verifier::opaque]
pub open spec fn network_dec(j: Json, x: Network) -> bool {
    &&& j is Object
    &&& opt_texts_dec(field_of(j, "aliases"@), x.aliases)
    &&& opt_api_urls_dec(field_of(j, "apiUrls"@), x.api_urls)
    &&& text_dec(field_of(j, "caip2Id"@), x.caip2_id)
    &&& opt_text_dec(field_of(j, "docsUrl"@), x.docs_url)
    &&& opt_texts_dec(field_of(j, "explorerUrls"@), x.explorer_urls)
    &&& opt_firehose_dec(field_of(j, "firehose"@), x.firehose)
    &&& text_dec(field_of(j, "fullName"@), x.full_name)
    &&& opt_graph_node_dec(field_of(j, "graphNode"@), x.graph_node)
    &&& opt_icon_dec(field_of(j, "icon"@), x.icon)
    &&& text_dec(field_of(j, "id"@), x.id)
    &&& opt_indexer_docs_urls_dec(field_of(j, "indexerDocsUrls"@), x.indexer_docs_urls)
    &&& bool_dec(field_of(j, "issuanceRewards"@), x.issuance_rewards)
    &&& opt_text_dec(field_of(j, "nativeToken"@), x.native_token)
    &&& field_of(j, "networkType"@) matches Some(v) && network_type_dec(v, x.network_type)
    &&& opt_relations_dec(field_of(j, "relations"@), x.relations)
    &&& opt_texts_dec(field_of(j, "rpcUrls"@), x.rpc_urls)
    &&& opt_text_dec(field_of(j, "secondName"@), x.second_name)
    &&& field_of(j, "services"@) matches Some(v) && services_dec(v, x.services)
    &&& text_dec(field_of(j, "shortName"@), x.short_name)
    &&& opt_token_api_dec(field_of(j, "tokenApi"@), x.token_api)
}

fn decode_network(j: &Json) -> (r: Option<Network>)
    ensures
        r matches Some(x) ==> network_dec(*j, x),
        r is None ==> forall|x: Network| !network_dec(*j, x),
{
    reveal(network_dec);
    if !is_object(j) {
        return None;
    }
    let aliases = opt_texts_member(j, "aliases")?;
    let api_urls = opt_api_urls_member(j, "apiUrls")?;
    let caip2_id = text_member(j, "caip2Id")?;
    let docs_url = opt_text_member(j, "docsUrl")?;
    let explorer_urls = opt_texts_member(j, "explorerUrls")?;
    let firehose = opt_firehose_member(j, "firehose")?;
    let full_name = text_member(j, "fullName")?;
    let graph_node = opt_graph_node_member(j, "graphNode")?;
    let icon = opt_icon_member(j, "icon")?;
    let id = text_member(j, "id")?;
    let indexer_docs_urls = opt_indexer_docs_urls_member(j, "indexerDocsUrls")?;
    let issuance_rewards = bool_member(j, "issuanceRewards")?;
    let native_token = opt_text_member(j, "nativeToken")?;
    let network_type = decode_network_type(get_field(j, "networkType")?)?;
    let relations = opt_relations_member(j, "relations")?;
    let rpc_urls = opt_texts_member(j, "rpcUrls")?;
    let second_name = opt_text_member(j, "secondName")?;
    let services = decode_services(get_field(j, "services")?)?;
    let short_name = text_member(j, "shortName")?;
    let token_api = opt_token_api_member(j, "tokenApi")?;
    Some(Network { aliases, api_urls, caip2_id, docs_url, explorer_urls, firehose, full_name, graph_node, icon, id, indexer_docs_urls, issuance_rewards, native_token, network_type, relations, rpc_urls, second_name, services, short_name, token_api })
}

/// An object that decodes to `x`; members it does not name are ignored.
#[verifier::opaque]
pub open spec fn registry_dec(j: Json, x: NetworksRegistry) -> bool {
    &&& j is Object
    &&& text_dec(field_of(j, "$schema"@), x.schema)
    &&& text_dec(field_of(j, "description"@), x.description)
    &&& field_of(j, "networks"@) matches Some(v) && networks_dec(v, x.networks@)
    &&& text_dec(field_of(j, "title"@), x.title)
    &&& text_dec(field_of(j, "updatedAt"@), x.updated_at)
    &&& text_dec(field_of(j, "version"@), x.version)
}

pub(crate) fn decode_registry(j: &Json) -> (r: Option<NetworksRegistry>)
    ensures
        r matches Some(x) ==> registry_dec(*j, x),
        r is None ==> forall|x: NetworksRegistry| !registry_dec(*j, x),
{
    reveal(registry_dec);
    if !is_object(j) {
        return None;
    }
    let schema = text_member(j, "$schema")?;
    let description = text_member(j, "description")?;
    let networks = decode_networks(get_field(j, "networks")?)?;
    let title = text_member(j, "title")?;
    let updated_at = text_member(j, "updatedAt")?;
    let version = text_member(j, "version")?;
    Some(NetworksRegistry { schema, description, networks, title, updated_at, version })
}

} // verus!
