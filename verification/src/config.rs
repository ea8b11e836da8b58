//! What a user configures before a simulation.
use vstd::prelude::*;

verus! {

/// The configuration of a simulation.
#[derive(Clone, Debug)]
pub struct GatlingConfig {
    pub rpc: RpcConfig,
    pub deployer: DeployerConfig,
    pub simulation: SimulationConfig,
}

/// Where the node listens.
#[derive(Clone, Debug)]
pub struct RpcConfig {
    pub url: String,
}

/// The account that sends the transactions, in hexadecimal.
#[derive(Clone, Debug)]
pub struct DeployerConfig {
    pub address: String,
    pub signing_key: String,
}

#[derive(Clone, Debug)]
pub struct SimulationConfig {
    pub fail_fast: bool,
    pub setup: SetupConfig,
}

/// What the setup phase declares and deploys.
#[derive(Clone, Debug)]
pub struct SetupConfig {
    pub erc20_contract_path: String,
    pub erc721_contract_path: String,
    pub account_contract_path: String,
    pub num_accounts: u32,
}

} // verus!
