//! The deployments the agent knows: for each network the protocol's addresses
//! and the block at which the pool was created.

use crate::address::{Address, ZERO_BYTES};
use vstd::prelude::*;

verus! {

/// A supported deployment of the lending protocol.
#[derive(Clone, Copy, Debug, PartialEq, Eq, Structural)]
pub enum Deployment {
    AAVE,
    SEASHELL,
    AaveV3Sonic,
    AaveV3Celo,
    AaveV3Ethereum,
    AaveV3Optimism,
    AaveV3Bnb,
    AaveV3Arbitrum,
    AaveV3Avax,
    AaveV3Polygon,
}

/// The immutable facts of one deployment.
#[derive(Clone, Copy, Debug, PartialEq, Eq)]
pub struct DeploymentConfig {
    pub pool_address: Address,
    pub pool_data_provider: Address,
    pub oracle_address: Address,
    /// The call-data encoder, or the zero address where the network has none.
    pub l2_encoder: Address,
    /// The block at which the pool was created: where a first synchronization starts.
    pub creation_block: u64,
    /// The wrapped native asset, in which profits are counted.
    pub weth_address: Address,
}

/// `0xA238Dd80C259a72e81d7e4664a9801593F98d1c5`
pub const AAVE_POOL: [u8; 20] = [
    0xa2, 0x38, 0xdd, 0x80, 0xc2, 0x59, 0xa7, 0x2e, 0x81, 0xd7,
    0xe4, 0x66, 0x4a, 0x98, 0x01, 0x59, 0x3f, 0x98, 0xd1, 0xc5,
];

/// `0x2d8A3C5677189723C4cB8873CfC9C8976FDF38Ac`
pub const AAVE_DATA_PROVIDER: [u8; 20] = [
    0x2d, 0x8a, 0x3c, 0x56, 0x77, 0x18, 0x97, 0x23, 0xc4, 0xcb,
    0x88, 0x73, 0xcf, 0xc9, 0xc8, 0x97, 0x6f, 0xdf, 0x38, 0xac,
];

/// `0x2Cc0Fc26eD4563A5ce5e8bdcfe1A2878676Ae156`
pub const AAVE_ORACLE: [u8; 20] = [
    0x2c, 0xc0, 0xfc, 0x26, 0xed, 0x45, 0x63, 0xa5, 0xce, 0x5e,
    0x8b, 0xdc, 0xfe, 0x1a, 0x28, 0x78, 0x67, 0x6a, 0xe1, 0x56,
];

/// `0x39e97c588B2907Fb67F44fea256Ae3BA064207C5`
pub const AAVE_L2_ENCODER: [u8; 20] = [
    0x39, 0xe9, 0x7c, 0x58, 0x8b, 0x29, 0x07, 0xfb, 0x67, 0xf4,
    0x4f, 0xea, 0x25, 0x6a, 0xe3, 0xba, 0x06, 0x42, 0x07, 0xc5,
];

/// Wrapped ether on the OP-stack chains: `0x4200000000000000000000000000000000000006`.
pub const WETH_ADDRESS: [u8; 20] = [
    0x42, 0x00, 0x00, 0x00, 0x00, 0x00, 0x00, 0x00, 0x00, 0x00,
    0x00, 0x00, 0x00, 0x00, 0x00, 0x00, 0x00, 0x00, 0x00, 0x06,
];

/// `0x8F44Fd754285aa6A2b8B9B97739B79746e0475a7`
pub const SEASHELL_POOL: [u8; 20] = [
    0x8f, 0x44, 0xfd, 0x75, 0x42, 0x85, 0xaa, 0x6a, 0x2b, 0x8b,
    0x9b, 0x97, 0x73, 0x9b, 0x79, 0x74, 0x6e, 0x04, 0x75, 0xa7,
];

/// `0x2A0979257105834789bC6b9E1B00446DFbA8dFBa`
pub const SEASHELL_DATA_PROVIDER: [u8; 20] = [
    0x2a, 0x09, 0x79, 0x25, 0x71, 0x05, 0x83, 0x47, 0x89, 0xbc,
    0x6b, 0x9e, 0x1b, 0x00, 0x44, 0x6d, 0xfb, 0xa8, 0xdf, 0xba,
];

/// `0xFDd4e83890BCcd1fbF9b10d71a5cc0a738753b01`
pub const SEASHELL_ORACLE: [u8; 20] = [
    0xfd, 0xd4, 0xe8, 0x38, 0x90, 0xbc, 0xcd, 0x1f, 0xbf, 0x9b,
    0x10, 0xd7, 0x1a, 0x5c, 0xc0, 0xa7, 0x38, 0x75, 0x3b, 0x01,
];

/// `0xceceF475167f7BFD8995c0cbB577644b623cD7Cf`
pub const SEASHELL_L2_ENCODER: [u8; 20] = [
    0xce, 0xce, 0xf4, 0x75, 0x16, 0x7f, 0x7b, 0xfd, 0x89, 0x95,
    0xc0, 0xcb, 0xb5, 0x77, 0x64, 0x4b, 0x62, 0x3c, 0xd7, 0xcf,
];

/// `0x5362dBb1e601abF3a4c14c22ffEdA64042E5eAA3`
pub const SONIC_POOL: [u8; 20] = [
    0x53, 0x62, 0xdb, 0xb1, 0xe6, 0x01, 0xab, 0xf3, 0xa4, 0xc1,
    0x4c, 0x22, 0xff, 0xed, 0xa6, 0x40, 0x42, 0xe5, 0xea, 0xa3,
];

/// `0x306c124fFba5f2Bc0BcAf40D249cf19D492440b9`
pub const SONIC_DATA_PROVIDER: [u8; 20] = [
    0x30, 0x6c, 0x12, 0x4f, 0xfb, 0xa5, 0xf2, 0xbc, 0x0b, 0xca,
    0xf4, 0x0d, 0x24, 0x9c, 0xf1, 0x9d, 0x49, 0x24, 0x40, 0xb9,
];

/// `0xD63f7658C66B2934Bd234D79D06aEF5290734B30`
pub const SONIC_ORACLE: [u8; 20] = [
    0xd6, 0x3f, 0x76, 0x58, 0xc6, 0x6b, 0x29, 0x34, 0xbd, 0x23,
    0x4d, 0x79, 0xd0, 0x6a, 0xef, 0x52, 0x90, 0x73, 0x4b, 0x30,
];

/// `0x039e2fB66102314Ce7b64Ce5Ce3E5183bc94aD38`
pub const SONIC_WRAPPED_NATIVE: [u8; 20] = [
    0x03, 0x9e, 0x2f, 0xb6, 0x61, 0x02, 0x31, 0x4c, 0xe7, 0xb6,
    0x4c, 0xe5, 0xce, 0x3e, 0x51, 0x83, 0xbc, 0x94, 0xad, 0x38,
];

/// `0x3E59A31363E2ad014dcbc521c4a0d5757d9f3402`
pub const CELO_POOL: [u8; 20] = [
    0x3e, 0x59, 0xa3, 0x13, 0x63, 0xe2, 0xad, 0x01, 0x4d, 0xcb,
    0xc5, 0x21, 0xc4, 0xa0, 0xd5, 0x75, 0x7d, 0x9f, 0x34, 0x02,
];

/// `0x33b7d355613110b4E842f5f7057Ccd36fb4cee28`
pub const CELO_DATA_PROVIDER: [u8; 20] = [
    0x33, 0xb7, 0xd3, 0x55, 0x61, 0x31, 0x10, 0xb4, 0xe8, 0x42,
    0xf5, 0xf7, 0x05, 0x7c, 0xcd, 0x36, 0xfb, 0x4c, 0xee, 0x28,
];

/// `0x1e693D088ceFD1E95ba4c4a5F7EeA41a1Ec37e8b`
pub const CELO_ORACLE: [u8; 20] = [
    0x1e, 0x69, 0x3d, 0x08, 0x8c, 0xef, 0xd1, 0xe9, 0x5b, 0xa4,
    0xc4, 0xa5, 0xf7, 0xee, 0xa4, 0x1a, 0x1e, 0xc3, 0x7e, 0x8b,
];

/// `0x471EcE3750Da237f93B8E339c536989b8978a438`
pub const CELO_WRAPPED_NATIVE: [u8; 20] = [
    0x47, 0x1e, 0xce, 0x37, 0x50, 0xda, 0x23, 0x7f, 0x93, 0xb8,
    0xe3, 0x39, 0xc5, 0x36, 0x98, 0x9b, 0x89, 0x78, 0xa4, 0x38,
];

/// `0x87870Bca3F3fD6335C3F4ce8392D69350B4fA4E2`
pub const ETHEREUM_POOL: [u8; 20] = [
    0x87, 0x87, 0x0b, 0xca, 0x3f, 0x3f, 0xd6, 0x33, 0x5c, 0x3f,
    0x4c, 0xe8, 0x39, 0x2d, 0x69, 0x35, 0x0b, 0x4f, 0xa4, 0xe2,
];

/// `0x497a1994c46d4f6C864904A9f1fac6328Cb7C8a6`
pub const ETHEREUM_DATA_PROVIDER: [u8; 20] = [
    0x49, 0x7a, 0x19, 0x94, 0xc4, 0x6d, 0x4f, 0x6c, 0x86, 0x49,
    0x04, 0xa9, 0xf1, 0xfa, 0xc6, 0x32, 0x8c, 0xb7, 0xc8, 0xa6,
];

/// `0x54586bE62E3c3580375aE3723C145253060Ca0C2`
pub const ETHEREUM_ORACLE: [u8; 20] = [
    0x54, 0x58, 0x6b, 0xe6, 0x2e, 0x3c, 0x35, 0x80, 0x37, 0x5a,
    0xe3, 0x72, 0x3c, 0x14, 0x52, 0x53, 0x06, 0x0c, 0xa0, 0xc2,
];

/// `0xC02aaA39b223FE8D0A0e5C4F27eAD9083C756Cc2`
pub const ETHEREUM_WRAPPED_NATIVE: [u8; 20] = [
    0xc0, 0x2a, 0xaa, 0x39, 0xb2, 0x23, 0xfe, 0x8d, 0x0a, 0x0e,
    0x5c, 0x4f, 0x27, 0xea, 0xd9, 0x08, 0x3c, 0x75, 0x6c, 0xc2,
];

/// The pool of the deployments that share one address across chains: `0x794a61358D6845594F94dc1DB02A252b5b4814aD`.
pub const V3_POOL: [u8; 20] = [
    0x79, 0x4a, 0x61, 0x35, 0x8d, 0x68, 0x45, 0x59, 0x4f, 0x94,
    0xdc, 0x1d, 0xb0, 0x2a, 0x25, 0x2b, 0x5b, 0x48, 0x14, 0xad,
];

/// The data provider of the deployments that share one address across chains: `0x14496b405D62c24F91f04Cda1c69Dc526D56fDE5`.
pub const V3_DATA_PROVIDER: [u8; 20] = [
    0x14, 0x49, 0x6b, 0x40, 0x5d, 0x62, 0xc2, 0x4f, 0x91, 0xf0,
    0x4c, 0xda, 0x1c, 0x69, 0xdc, 0x52, 0x6d, 0x56, 0xfd, 0xe5,
];

/// `0xD81eb3728a631871a7eBBaD631b5f424909f0c77`
pub const OPTIMISM_ORACLE: [u8; 20] = [
    0xd8, 0x1e, 0xb3, 0x72, 0x8a, 0x63, 0x18, 0x71, 0xa7, 0xeb,
    0xba, 0xd6, 0x31, 0xb5, 0xf4, 0x24, 0x90, 0x9f, 0x0c, 0x77,
];

/// The call-data encoder of the rollup deployments: `0x9abADECD08572e0eA5aF4d47A9C7984a5AA503dC`.
pub const V3_L2_ENCODER: [u8; 20] = [
    0x9a, 0xba, 0xde, 0xcd, 0x08, 0x57, 0x2e, 0x0e, 0xa5, 0xaf,
    0x4d, 0x47, 0xa9, 0xc7, 0x98, 0x4a, 0x5a, 0xa5, 0x03, 0xdc,
];

/// `0x6807dc923806fE8Fd134338EABCA509979a7e0cB`
pub const BNB_POOL: [u8; 20] = [
    0x68, 0x07, 0xdc, 0x92, 0x38, 0x06, 0xfe, 0x8f, 0xd1, 0x34,
    0x33, 0x8e, 0xab, 0xca, 0x50, 0x99, 0x79, 0xa7, 0xe0, 0xcb,
];

/// `0x1e26247502e90b4fab9D0d17e4775e90085D2A35`
pub const BNB_DATA_PROVIDER: [u8; 20] = [
    0x1e, 0x26, 0x24, 0x75, 0x02, 0xe9, 0x0b, 0x4f, 0xab, 0x9d,
    0x0d, 0x17, 0xe4, 0x77, 0x5e, 0x90, 0x08, 0x5d, 0x2a, 0x35,
];

/// `0x39bc1bfDa2130d6Bb6DBEfd366939b4c7aa7C697`
pub const BNB_ORACLE: [u8; 20] = [
    0x39, 0xbc, 0x1b, 0xfd, 0xa2, 0x13, 0x0d, 0x6b, 0xb6, 0xdb,
    0xef, 0xd3, 0x66, 0x93, 0x9b, 0x4c, 0x7a, 0xa7, 0xc6, 0x97,
];

/// `0xbb4CdB9CBd36B01bD1cBaEBF2De08d9173bc095c`
pub const BNB_WRAPPED_NATIVE: [u8; 20] = [
    0xbb, 0x4c, 0xdb, 0x9c, 0xbd, 0x36, 0xb0, 0x1b, 0xd1, 0xcb,
    0xae, 0xbf, 0x2d, 0xe0, 0x8d, 0x91, 0x73, 0xbc, 0x09, 0x5c,
];

/// `0xb56c2F0B653B2e0b10C9b928C8580Ac5Df02C7C7`
pub const ARBITRUM_ORACLE: [u8; 20] = [
    0xb5, 0x6c, 0x2f, 0x0b, 0x65, 0x3b, 0x2e, 0x0b, 0x10, 0xc9,
    0xb9, 0x28, 0xc8, 0x58, 0x0a, 0xc5, 0xdf, 0x02, 0xc7, 0xc7,
];

/// `0x82aF49447D8a07e3bd95BD0d56f35241523fBab1`
pub const ARBITRUM_WRAPPED_NATIVE: [u8; 20] = [
    0x82, 0xaf, 0x49, 0x44, 0x7d, 0x8a, 0x07, 0xe3, 0xbd, 0x95,
    0xbd, 0x0d, 0x56, 0xf3, 0x52, 0x41, 0x52, 0x3f, 0xba, 0xb1,
];

/// `0xEBd36016B3eD09D4693Ed4251c67Bd858c3c7C9C`
pub const AVAX_ORACLE: [u8; 20] = [
    0xeb, 0xd3, 0x60, 0x16, 0xb3, 0xed, 0x09, 0xd4, 0x69, 0x3e,
    0xd4, 0x25, 0x1c, 0x67, 0xbd, 0x85, 0x8c, 0x3c, 0x7c, 0x9c,
];

/// `0xB31f66AA3C1e785363F0875A1B74E27b85FD66c7`
pub const AVAX_WRAPPED_NATIVE: [u8; 20] = [
    0xb3, 0x1f, 0x66, 0xaa, 0x3c, 0x1e, 0x78, 0x53, 0x63, 0xf0,
    0x87, 0x5a, 0x1b, 0x74, 0xe2, 0x7b, 0x85, 0xfd, 0x66, 0xc7,
];

/// `0xb023e699F5a33916Ea823A16485e259257cA8Bd1`
pub const POLYGON_ORACLE: [u8; 20] = [
    0xb0, 0x23, 0xe6, 0x99, 0xf5, 0xa3, 0x39, 0x16, 0xea, 0x82,
    0x3a, 0x16, 0x48, 0x5e, 0x25, 0x92, 0x57, 0xca, 0x8b, 0xd1,
];

/// `0x0d500B1d8E8eF31E21C99d1Db9A6444d3ADf1270`
pub const POLYGON_WRAPPED_NATIVE: [u8; 20] = [
    0x0d, 0x50, 0x0b, 0x1d, 0x8e, 0x8e, 0xf3, 0x1e, 0x21, 0xc9,
    0x9d, 0x1d, 0xb9, 0xa6, 0x44, 0x4d, 0x3a, 0xdf, 0x12, 0x70,
];

/// The table of deployments.
pub open spec fn deployment_config(deployment: Deployment) -> DeploymentConfig {
    match deployment {
        Deployment::AAVE => DeploymentConfig {
            pool_address: Address { bytes: AAVE_POOL },
            pool_data_provider: Address { bytes: AAVE_DATA_PROVIDER },
            oracle_address: Address { bytes: AAVE_ORACLE },
            l2_encoder: Address { bytes: AAVE_L2_ENCODER },
            creation_block: 2963358,
            weth_address: Address { bytes: WETH_ADDRESS },
        },
        Deployment::SEASHELL => DeploymentConfig {
            pool_address: Address { bytes: SEASHELL_POOL },
            pool_data_provider: Address { bytes: SEASHELL_DATA_PROVIDER },
            oracle_address: Address { bytes: SEASHELL_ORACLE },
            l2_encoder: Address { bytes: SEASHELL_L2_ENCODER },
            creation_block: 3318602,
            weth_address: Address { bytes: WETH_ADDRESS },
        },
        Deployment::AaveV3Sonic => DeploymentConfig {
            pool_address: Address { bytes: SONIC_POOL },
            pool_data_provider: Address { bytes: SONIC_DATA_PROVIDER },
            oracle_address: Address { bytes: SONIC_ORACLE },
            l2_encoder: Address { bytes: ZERO_BYTES },
            creation_block: 7986580,
            weth_address: Address { bytes: SONIC_WRAPPED_NATIVE },
        },
        Deployment::AaveV3Celo => DeploymentConfig {
            pool_address: Address { bytes: CELO_POOL },
            pool_data_provider: Address { bytes: CELO_DATA_PROVIDER },
            oracle_address: Address { bytes: CELO_ORACLE },
            l2_encoder: Address { bytes: ZERO_BYTES },
            creation_block: 30390066,
            weth_address: Address { bytes: CELO_WRAPPED_NATIVE },
        },
        Deployment::AaveV3Ethereum => DeploymentConfig {
            pool_address: Address { bytes: ETHEREUM_POOL },
            pool_data_provider: Address { bytes: ETHEREUM_DATA_PROVIDER },
            oracle_address: Address { bytes: ETHEREUM_ORACLE },
            l2_encoder: Address { bytes: ZERO_BYTES },
            creation_block: 16291126,
            weth_address: Address { bytes: ETHEREUM_WRAPPED_NATIVE },
        },
        Deployment::AaveV3Optimism => DeploymentConfig {
            pool_address: Address { bytes: V3_POOL },
            pool_data_provider: Address { bytes: V3_DATA_PROVIDER },
            oracle_address: Address { bytes: OPTIMISM_ORACLE },
            l2_encoder: Address { bytes: V3_L2_ENCODER },
            creation_block: 4365693,
            weth_address: Address { bytes: WETH_ADDRESS },
        },
        Deployment::AaveV3Bnb => DeploymentConfig {
            pool_address: Address { bytes: BNB_POOL },
            pool_data_provider: Address { bytes: BNB_DATA_PROVIDER },
            oracle_address: Address { bytes: BNB_ORACLE },
            l2_encoder: Address { bytes: ZERO_BYTES },
            creation_block: 33571625,
            weth_address: Address { bytes: BNB_WRAPPED_NATIVE },
        },
        Deployment::AaveV3Arbitrum => DeploymentConfig {
            pool_address: Address { bytes: V3_POOL },
            pool_data_provider: Address { bytes: V3_DATA_PROVIDER },
            oracle_address: Address { bytes: ARBITRUM_ORACLE },
            l2_encoder: Address { bytes: V3_L2_ENCODER },
            creation_block: 7742429,
            weth_address: Address { bytes: ARBITRUM_WRAPPED_NATIVE },
        },
        Deployment::AaveV3Avax => DeploymentConfig {
            pool_address: Address { bytes: V3_POOL },
            pool_data_provider: Address { bytes: V3_DATA_PROVIDER },
            oracle_address: Address { bytes: AVAX_ORACLE },
            l2_encoder: Address { bytes: ZERO_BYTES },
            creation_block: 11970506,
            weth_address: Address { bytes: AVAX_WRAPPED_NATIVE },
        },
        Deployment::AaveV3Polygon => DeploymentConfig {
            pool_address: Address { bytes: V3_POOL },
            pool_data_provider: Address { bytes: V3_DATA_PROVIDER },
            oracle_address: Address { bytes: POLYGON_ORACLE },
            l2_encoder: Address { bytes: ZERO_BYTES },
            creation_block: 25826028,
            weth_address: Address { bytes: POLYGON_WRAPPED_NATIVE },
        },
    }
}

/// The addresses and creation block of a deployment.
pub fn get_deployment_config(deployment: Deployment) -> (config: DeploymentConfig)
    ensures
        config == deployment_config(deployment),
{
    match deployment {
        Deployment::AAVE => DeploymentConfig {
            pool_address: Address { bytes: AAVE_POOL },
            pool_data_provider: Address { bytes: AAVE_DATA_PROVIDER },
            oracle_address: Address { bytes: AAVE_ORACLE },
            l2_encoder: Address { bytes: AAVE_L2_ENCODER },
            creation_block: 2963358,
            weth_address: Address { bytes: WETH_ADDRESS },
        },
        Deployment::SEASHELL => DeploymentConfig {
            pool_address: Address { bytes: SEASHELL_POOL },
            pool_data_provider: Address { bytes: SEASHELL_DATA_PROVIDER },
            oracle_address: Address { bytes: SEASHELL_ORACLE },
            l2_encoder: Address { bytes: SEASHELL_L2_ENCODER },
            creation_block: 3318602,
            weth_address: Address { bytes: WETH_ADDRESS },
        },
        Deployment::AaveV3Sonic => DeploymentConfig {
            pool_address: Address { bytes: SONIC_POOL },
            pool_data_provider: Address { bytes: SONIC_DATA_PROVIDER },
            oracle_address: Address { bytes: SONIC_ORACLE },
            l2_encoder: Address { bytes: ZERO_BYTES },
            creation_block: 7986580,
            weth_address: Address { bytes: SONIC_WRAPPED_NATIVE },
        },
        Deployment::AaveV3Celo => DeploymentConfig {
            pool_address: Address { bytes: CELO_POOL },
            pool_data_provider: Address { bytes: CELO_DATA_PROVIDER },
            oracle_address: Address { bytes: CELO_ORACLE },
            l2_encoder: Address { bytes: ZERO_BYTES },
            creation_block: 30390066,
            weth_address: Address { bytes: CELO_WRAPPED_NATIVE },
        },
        Deployment::AaveV3Ethereum => DeploymentConfig {
            pool_address: Address { bytes: ETHEREUM_POOL },
            pool_data_provider: Address { bytes: ETHEREUM_DATA_PROVIDER },
            oracle_address: Address { bytes: ETHEREUM_ORACLE },
            l2_encoder: Address { bytes: ZERO_BYTES },
            creation_block: 16291126,
            weth_address: Address { bytes: ETHEREUM_WRAPPED_NATIVE },
        },
        Deployment::AaveV3Optimism => DeploymentConfig {
            pool_address: Address { bytes: V3_POOL },
            pool_data_provider: Address { bytes: V3_DATA_PROVIDER },
            oracle_address: Address { bytes: OPTIMISM_ORACLE },
            l2_encoder: Address { bytes: V3_L2_ENCODER },
            creation_block: 4365693,
            weth_address: Address { bytes: WETH_ADDRESS },
        },
        Deployment::AaveV3Bnb => DeploymentConfig {
            pool_address: Address { bytes: BNB_POOL },
            pool_data_provider: Address { bytes: BNB_DATA_PROVIDER },
            oracle_address: Address { bytes: BNB_ORACLE },
            l2_encoder: Address { bytes: ZERO_BYTES },
            creation_block: 33571625,
            weth_address: Address { bytes: BNB_WRAPPED_NATIVE },
        },
        Deployment::AaveV3Arbitrum => DeploymentConfig {
            pool_address: Address { bytes: V3_POOL },
            pool_data_provider: Address { bytes: V3_DATA_PROVIDER },
            oracle_address: Address { bytes: ARBITRUM_ORACLE },
            l2_encoder: Address { bytes: V3_L2_ENCODER },
            creation_block: 7742429,
            weth_address: Address { bytes: ARBITRUM_WRAPPED_NATIVE },
        },
        Deployment::AaveV3Avax => DeploymentConfig {
            pool_address: Address { bytes: V3_POOL },
            pool_data_provider: Address { bytes: V3_DATA_PROVIDER },
            oracle_address: Address { bytes: AVAX_ORACLE },
            l2_encoder: Address { bytes: ZERO_BYTES },
            creation_block: 11970506,
            weth_address: Address { bytes: AVAX_WRAPPED_NATIVE },
        },
        Deployment::AaveV3Polygon => DeploymentConfig {
            pool_address: Address { bytes: V3_POOL },
            pool_data_provider: Address { bytes: V3_DATA_PROVIDER },
            oracle_address: Address { bytes: POLYGON_ORACLE },
            l2_encoder: Address { bytes: ZERO_BYTES },
            creation_block: 25826028,
            weth_address: Address { bytes: POLYGON_WRAPPED_NATIVE },
        },
    }
}

} // verus!
