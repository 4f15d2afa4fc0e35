//! Gateway configuration: its types, its defaults and how amounts are read.
use std::collections::HashMap;

use vstd::prelude::*;

use crate::decimal;
use crate::decimal::DecimalError;
use crate::primitives::Address;

verus! {

/// RPC capability tier a provider can serve.
///
/// Providers declare which tiers they support; the gateway filters the candidate
/// pool to only providers capable of serving a given request.
#[derive(Debug, Clone, Copy, PartialEq, Eq, Structural)]
pub enum CapabilityTier {
    /// Standard full-node methods: the last 128 blocks or so.
    Standard,
    /// Full historical state: an archive node is required.
    Archive,
    /// `debug_*` and `trace_*` methods: the debug API is required.
    Debug,
}

/// The whole gateway configuration.
#[derive(Debug, Clone)]
pub struct Config {
    pub gateway: GatewayConfig,
    pub tap: TapConfig,
    pub qos: QosConfig,
    /// Static providers, used at startup or when no subgraph is configured.
    pub providers: Vec<ProviderConfig>,
    /// Subgraph-based dynamic discovery.
    pub discovery: Option<DiscoveryConfig>,
    /// Per-IP rate limiting.
    pub rate_limit: Option<RateLimitConfig>,
    /// Where receipt feed queries are proxied to.
    pub service: Option<ServiceConfig>,
    /// Automatic funding of escrow for new providers.
    pub provisioning: Option<ProvisioningConfig>,
    /// Seahorn (Solana structured data) proxy configuration.
    pub seahorn: Option<SeahornConfig>,
}

/// Connection details for the local dispatch-service instance.
#[derive(Debug, Clone)]
pub struct ServiceConfig {
    /// Base URL of the dispatch-service, e.g. "http://localhost:7700".
    pub url: String,
}

/// Where the gateway listens and where it stands.
#[derive(Debug, Clone)]
pub struct GatewayConfig {
    pub host: String,
    pub port: u16,
    /// Geographic region of this gateway instance (e.g. "us-east", "eu-west").
    pub region: Option<String>,
}

/// How receipts are signed and priced.
#[derive(Debug, Clone)]
pub struct TapConfig {
    /// Gateway operator private key (hex), which signs the receipts sent to providers.
    pub signer_private_key: String,
    /// Gateway operator wallet, the payer in all receipts.
    pub gateway_payer_address: Address,
    /// RPCDataService contract.
    pub data_service_address: Address,
    /// GRT wei charged per compute unit.
    pub base_price_per_cu: u128,
    /// EIP-712 domain name for GraphTallyCollector.
    pub eip712_domain_name: String,
    /// Chain on which GraphTallyCollector is deployed.
    pub eip712_chain_id: u64,
    /// GraphTallyCollector contract.
    pub eip712_verifying_contract: Address,
}

/// How providers are probed and chosen.
#[derive(Debug, Clone, Copy)]
pub struct QosConfig {
    /// Seconds between two probes of all providers.
    pub probe_interval_secs: u64,
    /// Number of providers to dispatch to concurrently; the first response wins.
    pub concurrent_k: usize,
    /// Number of providers to query for quorum on deterministic methods.
    pub quorum_k: usize,
    /// Score bonus for providers in the gateway's own region, as the bit pattern of a
    /// double-precision number.
    pub region_bonus_bits: u64,
}

/// A provider that is configured by hand.
#[derive(Debug, Clone)]
pub struct ProviderConfig {
    /// Indexer's on-chain address, the service provider in receipts.
    pub address: Address,
    /// Base URL of the indexer's dispatch-service endpoint.
    pub endpoint: String,
    /// Chains this provider is registered to serve.
    pub chains: Vec<u64>,
    /// Geographic region of this provider.
    pub region: Option<String>,
    /// Capability tiers this provider supports.
    pub capabilities: Vec<CapabilityTier>,
    /// Tiers per chain, populated by dynamic discovery; where it is not empty it is used
    /// in place of `capabilities`.
    pub chain_capabilities: HashMap<u64, Vec<CapabilityTier>>,
}

/// Dynamic provider discovery through a subgraph.
#[derive(Debug, Clone)]
pub struct DiscoveryConfig {
    /// GraphQL endpoint of the RPC network subgraph.
    pub subgraph_url: String,
    /// Seconds between two polls.
    pub interval_secs: u64,
}

/// Per-IP rate limiting for the RPC endpoint.
#[derive(Debug, Clone, Copy)]
pub struct RateLimitConfig {
    /// Steady-state requests per second per IP address.
    pub requests_per_second: u32,
    /// Burst capacity above the steady-state rate.
    pub burst: u32,
}

/// Automatic funding of escrow for newly discovered providers.
#[derive(Debug, Clone)]
pub struct ProvisioningConfig {
    /// Arbitrum One RPC URL used to send on-chain transactions.
    pub arbitrum_rpc_url: String,
    /// Private key of the gateway payer wallet (hex).
    pub gateway_payer_private_key: String,
    /// GRT token contract.
    pub grt_token_address: Address,
    /// PaymentsEscrow contract.
    pub escrow_address: Address,
    /// GraphTallyCollector, passed as `collector` to a deposit.
    pub collector_address: Address,
    /// GRT wei to deposit per provider when its escrow is below the threshold.
    pub deposit_per_provider: u128,
    /// A deposit is made when the escrow balance falls below this many GRT wei.
    pub min_escrow_threshold: u128,
    /// Seconds between two checks of provider escrow.
    pub interval_secs: u64,
}

/// The Seahorn (Solana structured data service) proxy.
///
/// Where it is present, the gateway proxies `/solana/*path` to the Seahorn provider, with
/// a signed receipt attached.
#[derive(Debug, Clone)]
pub struct SeahornConfig {
    /// Base URL of the Seahorn provider.
    pub endpoint: String,
    /// Seahorn provider's on-chain address.
    pub service_provider: Address,
    /// SolanaDataService contract, written into every receipt.
    pub data_service_address: Address,
    /// GRT wei charged per query.
    pub price_grt_wei: u128,
}

/// An amount as a configuration file may write it: a signed 64-bit integer, or a quoted
/// decimal text for anything larger.
#[derive(Debug, Clone)]
pub enum U128Helper {
    Int(i64),
    Str(String),
}

/// Why an amount is refused.
#[derive(Debug, Clone, Copy, PartialEq, Eq, Structural)]
pub enum AmountError {
    /// The integer is below zero.
    Negative,
    /// The text is no unsigned decimal number.
    Text(DecimalError),
}

impl AmountError {
    /// What the error says in words.
    pub open spec fn text(self) -> Seq<char> {
        match self {
            AmountError::Negative => "out of range integral type conversion attempted"@,
            AmountError::Text(e) => e.text(),
        }
    }

    /// The error in words.
    pub fn message(&self) -> (s: String)
        ensures
            s@ == self.text(),
    {
        match self {
            AmountError::Negative => "out of range integral type conversion attempted".to_owned(),
            AmountError::Text(e) => e.message(),
        }
    }
}

/// The amount that a configured value stands for.
pub open spec fn amount(value: U128Helper) -> Result<u128, AmountError> {
    match value {
        U128Helper::Int(v) => if v < 0 {
            Err(AmountError::Negative)
        } else {
            Ok(v as u128)
        },
        U128Helper::Str(s) => match decimal::parsed(s@) {
            Ok(v) => Ok(v),
            Err(e) => Err(AmountError::Text(e)),
        },
    }
}

/// Reads an amount from an integer or a quoted decimal text.
pub fn deserialize_u128(value: &U128Helper) -> (r: Result<u128, AmountError>)
    ensures
        r == amount(*value),
{
    match value {
        U128Helper::Int(v) => if *v < 0 {
            Err(AmountError::Negative)
        } else {
            Ok(*v as u128)
        },
        U128Helper::Str(s) => match decimal::parse_u128(s.as_str()) {
            Ok(v) => Ok(v),
            Err(e) => Err(AmountError::Text(e)),
        },
    }
}

/// The environment variable that names the configuration file.
pub const CONFIG_PATH_VARIABLE: &'static str = "DISPATCH_GATEWAY_CONFIG";

/// The configuration file to read: the one that the environment names, else
/// `gateway.toml` in the working directory.
pub fn config_path(named: Option<String>) -> (path: String)
    ensures
        path@ == match named {
            Some(p) => p@,
            None => "gateway.toml"@,
        },
{
    match named {
        Some(p) => p,
        None => "gateway.toml".to_owned(),
    }
}

/// A provider that declares no tier serves the standard one.
pub fn default_capabilities() -> (tiers: Vec<CapabilityTier>)
    ensures
        tiers@ == seq![CapabilityTier::Standard],
{
    vec![CapabilityTier::Standard]
}

/// The gateway listens on every interface.
pub fn default_host() -> (host: String)
    ensures
        host@ == "0.0.0.0"@,
{
    "0.0.0.0".to_owned()
}

/// The port that the gateway listens on.
pub fn default_port() -> (v: u16)
    ensures
        v == 8080u16,
{
    8080
}

/// GRT wei per compute unit: 4e-6 GRT.
pub fn default_base_price_per_cu() -> (v: u128)
    ensures
        v == 4_000_000_000_000u128,
{
    4_000_000_000_000
}

/// Arbitrum One.
pub fn default_tap_chain_id() -> (v: u64)
    ensures
        v == 42161u64,
{
    42161
}

/// Seconds between two probes.
pub fn default_probe_interval_secs() -> (v: u64)
    ensures
        v == 10u64,
{
    10
}

/// Providers that a request goes to at once.
pub fn default_concurrent_k() -> (v: usize)
    ensures
        v == 3usize,
{
    3
}

/// Providers that a quorum asks.
pub fn default_quorum_k() -> (v: usize)
    ensures
        v == 3usize,
{
    3
}

/// Seconds between two polls of the subgraph.
pub fn default_discovery_interval_secs() -> (v: u64)
    ensures
        v == 60u64,
{
    60
}

/// Requests per second per IP address.
pub fn default_rps() -> (v: u32)
    ensures
        v == 100u32,
{
    100
}

/// Requests above the steady-state rate.
pub fn default_burst() -> (v: u32)
    ensures
        v == 20u32,
{
    20
}

/// 100 GRT.
pub fn default_deposit_per_provider() -> (v: u128)
    ensures
        v == 100_000_000_000_000_000_000u128,
{
    100_000_000_000_000_000_000
}

/// 10 GRT.
pub fn default_min_escrow_threshold() -> (v: u128)
    ensures
        v == 10_000_000_000_000_000_000u128,
{
    10_000_000_000_000_000_000
}

/// 10 minutes.
pub fn default_provision_interval_secs() -> (v: u64)
    ensures
        v == 600u64,
{
    600
}

/// GRT wei per Seahorn query.
pub fn default_seahorn_price_grt_wei() -> (v: u128)
    ensures
        v == 10_000_000_000_000u128,
{
    10_000_000_000_000
}

/// GraphTallyCollector on Arbitrum One.
pub fn default_tap_verifying_contract() -> (a: Address)
    ensures
        a@ == seq![
            0x8fu8, 0x69u8, 0xf5u8, 0xc0u8, 0x74u8, 0x77u8, 0xacu8, 0x46u8, 0xfbu8, 0xc4u8,
            0x91u8, 0xb1u8, 0xe6u8, 0xd9u8, 0x1eu8, 0x2bu8, 0xb0u8, 0x11u8, 0x1au8, 0x9eu8,
        ],
{
    proof {
        reveal_strlit("0x8f69F5C07477Ac46FBc491B1E6D91E2bb0111A9e");
    }
    let address = Address::parse("0x8f69F5C07477Ac46FBc491B1E6D91E2bb0111A9e");
    address.unwrap()
}

/// The GRT token on Arbitrum One.
pub fn default_grt_token_address() -> (a: Address)
    ensures
        a@ == seq![
            0x96u8, 0x23u8, 0x06u8, 0x33u8, 0x77u8, 0xadu8, 0x1bu8, 0x27u8, 0x54u8, 0x4cu8,
            0x96u8, 0x5cu8, 0xcdu8, 0x73u8, 0x42u8, 0xf7u8, 0xeau8, 0x7eu8, 0x88u8, 0xc7u8,
        ],
{
    proof {
        reveal_strlit("0x9623063377AD1B27544C965cCd7342f7EA7e88C7");
    }
    let address = Address::parse("0x9623063377AD1B27544C965cCd7342f7EA7e88C7");
    address.unwrap()
}

/// PaymentsEscrow on Arbitrum One.
pub fn default_payments_escrow_address() -> (a: Address)
    ensures
        a@ == seq![
            0xf6u8, 0xfcu8, 0xc2u8, 0x7au8, 0xafu8, 0x1fu8, 0xcdu8, 0x8bu8, 0x25u8, 0x44u8,
            0x98u8, 0xc9u8, 0x79u8, 0x44u8, 0x51u8, 0xd8u8, 0x2au8, 0xfcu8, 0x67u8, 0x3eu8,
        ],
{
    proof {
        reveal_strlit("0xf6Fcc27aAf1fcD8B254498c9794451d82afC673E");
    }
    let address = Address::parse("0xf6Fcc27aAf1fcD8B254498c9794451d82afC673E");
    address.unwrap()
}

} // verus!
