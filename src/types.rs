//! The registry document and its network entries.

use vstd::prelude::*;

verus! {

/// One registry document.
#[derive(Debug, Clone)]
pub struct NetworksRegistry {
    /// Reference to the schema file (`$schema` on the wire)
    pub schema: String,
    pub description: String,
    /// The networks, in document order
    pub networks: Vec<Network>,
    pub title: String,
    /// Date and time of the last update (`updatedAt`)
    pub updated_at: String,
    /// Version of the registry
    pub version: String,
}

/// One chain's entry.
#[derive(Debug, Clone)]
pub struct Network {
    /// Other names of the network, e.g. ethereum, eth
    pub aliases: Option<Vec<String>>,
    /// Etherscan-like API URLs
    pub api_urls: Option<Vec<ApiUrl>>,
    /// CAIP-2 chain id, e.g. eip155:1
    pub caip2_id: String,
    /// URL to the chain documentation
    pub docs_url: Option<String>,
    /// Block explorer URLs
    pub explorer_urls: Option<Vec<String>>,
    /// Firehose block information
    pub firehose: Option<Firehose>,
    /// Display name, e.g. Ethereum Mainnet
    pub full_name: String,
    /// Graph Node specific information
    pub graph_node: Option<GraphNode>,
    /// Icons for the network
    pub icon: Option<Icon>,
    /// Established id of the network, e.g. mainnet, near-testnet
    pub id: String,
    /// Documentation to run indexer components for this network
    pub indexer_docs_urls: Option<Vec<IndexerDocsUrl>>,
    /// Issuance rewards on the Graph Network for this chain
    pub issuance_rewards: bool,
    /// Symbol of the native token
    pub native_token: Option<String>,
    /// Mainnet, testnet, devnet or beacon
    pub network_type: NetworkType,
    /// Relations to other networks of the registry
    pub relations: Option<Vec<Relation>>,
    /// RPC URLs of the chain
    pub rpc_urls: Option<Vec<String>>,
    /// Second display name, e.g. Sepolia
    pub second_name: Option<String>,
    /// Services available for the network
    pub services: Services,
    /// Short display name, e.g. Ethereum
    pub short_name: String,
    /// Token API specific information
    pub token_api: Option<TokenApi>,
}

#[derive(Debug, Clone)]
pub struct ApiUrl {
    pub kind: ApiUrlKind,
    pub url: String,
}

/// Kind of API
#[derive(Debug, Clone, Copy, PartialEq, Eq, Structural)]
pub enum ApiUrlKind {
    Blockscout,
    Etherscan,
    Ethplorer,
    Other,
    Subscan,
}

/// Firehose block information
#[derive(Debug, Clone)]
pub struct Firehose {
    /// Block features supported by the network
    pub block_features: Option<Vec<String>>,
    /// Block type, e.g. sf.ethereum.type.v2.Block
    pub block_type: String,
    /// Protobuf definitions on buf.build
    pub buf_url: String,
    /// Bytes encoding
    pub bytes_encoding: BytesEncoding,
    /// When the network was deprecated in Firehose software
    pub deprecated_at: Option<String>,
    /// Whether the extended EVM block model is supported
    pub evm_extended_model: Option<bool>,
    /// First available block
    pub first_streamable_block: Option<FirstStreamableBlock>,
}

/// Bytes encoding, e.g. hex, 0xhex, base58
#[derive(Debug, Clone, Copy, PartialEq, Eq, Structural)]
pub enum BytesEncoding {
    Base58,
    Base64,
    Hex,
    Other,
    /// `0xhex` on the wire
    The0Xhex,
}

/// First available block
#[derive(Debug, Clone)]
pub struct FirstStreamableBlock {
    /// Height of the first streamable block
    pub height: i64,
    /// Its id, in 0x-prefixed hex or base58
    pub id: String,
}

/// Graph Node specific information
#[derive(Debug, Clone)]
pub struct GraphNode {
    /// When the network was deprecated in Graph Node software
    pub deprecated_at: Option<String>,
    /// Protocol name in graph-node
    pub protocol: Option<Protocol>,
}

/// Protocol name in graph-node
#[derive(Debug, Clone, Copy, PartialEq, Eq, Structural)]
pub enum Protocol {
    Arweave,
    Cosmos,
    Ethereum,
    Near,
    Other,
    Starknet,
}

/// Icons for the network
#[derive(Debug, Clone)]
pub struct Icon {
    /// Web3Icons icon (`web3Icons` on the wire)
    pub web3_icons: Option<Web3Icons>,
}

/// Web3Icons icon
#[derive(Debug, Clone)]
pub struct Web3Icons {
    /// Icon id
    pub name: String,
    /// Variants of the icon; all when absent
    pub variants: Option<Vec<String>>,
}

#[derive(Debug, Clone)]
pub struct IndexerDocsUrl {
    /// Docs description, e.g. Arbitrum 101
    pub description: Option<String>,
    /// URL to the documentation
    pub url: String,
}

/// Whether the network is a mainnet, testnet, devnet or beacon chain
#[derive(Debug, Clone, Copy, PartialEq, Eq, Structural)]
pub enum NetworkType {
    Beacon,
    Devnet,
    Mainnet,
    Testnet,
}

#[derive(Debug, Clone)]
pub struct Relation {
    /// Kind of relation
    pub kind: RelationKind,
    /// Id of the related network
    pub network: String,
}

/// Kind of relation
#[derive(Debug, Clone, Copy, PartialEq, Eq, Structural)]
pub enum RelationKind {
    BeaconOf,
    EvmOf,
    ForkedFrom,
    L2Of,
    Other,
    ShardOf,
    SvmOf,
    TestnetOf,
}

/// Services available for the network
#[derive(Debug, Clone)]
pub struct Services {
    /// Firehose gRPC URLs
    pub firehose: Option<Vec<String>>,
    /// Substreams-based subgraphs deployment URLs
    pub sps: Option<Vec<String>>,
    /// Subgraph studio deployment URLs
    pub subgraphs: Option<Vec<String>>,
    /// Substreams gRPC URLs
    pub substreams: Option<Vec<String>>,
    /// Token API URLs (`tokenApi` on the wire)
    pub token_api: Option<Vec<String>>,
}

/// Token API specific information
#[derive(Debug, Clone)]
pub struct TokenApi {
    /// When the network was deprecated in Token API software
    pub deprecated_at: Option<String>,
    pub features: Option<Vec<Feature>>,
    /// Network id in Token API
    pub network_id: Option<String>,
}

/// Token API feature
#[derive(Debug, Clone, Copy, PartialEq, Eq, Structural)]
pub enum Feature {
    Dexes,
    Nfts,
    Other,
    Tokens,
}

} // verus!
