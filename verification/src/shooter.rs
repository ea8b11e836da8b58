//! The shooter: the state of a simulation, with the decisions it takes.
use crate::bindings::{legacy_class_hash, url_of};
use crate::config::GatlingConfig;
use crate::connection::{chain_name, configured_deployer, deployer, rpc_url, Deployer};
use crate::environment::{copy_felts, GatlingEnvironment};
use crate::error::{ErrorView, ShootError};
use crate::felt::Felt;
use crate::laws::law_step_keeps_wf;
use crate::report::{texts, SimulationReport, Table};
use crate::requests::{
    calculate_contract_address, constructor_args, deploy_max_fee, max_fee, mint_call, next_nonce,
    transfer_call, Deployment, Invocation,
};
use crate::simulation::{
    class_after, class_hash_in, initial, Action, BlockTag, DeclareReply, Event, ShooterState, Stage,
    Token, NUM_BLOCKS, NUM_ERC20_TRANSFERS, NUM_ERC721_MINTS,
};
use std::collections::HashMap;
use vstd::prelude::*;

verus! {

broadcast use vstd::std_specs::hash::group_hash_axioms;

/// A simulation under way.
pub struct GatlingShooter {
    config: GatlingConfig,
    deployer: Deployer,
    nonce: Felt,
    /// Populated by the setup phase.
    environment: Option<GatlingEnvironment>,
    report: SimulationReport,
    classes: Vec<Felt>,
    accounts: Vec<Felt>,
    contracts: Vec<Felt>,
    transactions: Vec<Felt>,
    counts: HashMap<u64, u64>,
    stage: Stage,
}

impl View for GatlingShooter {
    type V = ShooterState;

    closed spec fn view(&self) -> ShooterState {
        ShooterState {
            config: self.config,
            deployer: self.deployer,
            nonce: self.nonce,
            environment: match self.environment {
                Some(environment) => Some(environment@),
                None => None,
            },
            report: self.report@,
            classes: self.classes@,
            accounts: self.accounts@,
            contracts: self.contracts@,
            transactions: self.transactions@,
            counts: self.counts@,
            stage: self.stage,
        }
    }
}

/// The hash of the class in a contract artifact.
pub fn class_hash_of_artifact(artifact: &Vec<u8>) -> (hash: Result<Felt, ShootError>)
    ensures
        match class_hash_in(artifact@) {
            Ok(expected) => hash == Ok::<Felt, ShootError>(expected),
            Err(error) => hash matches Err(e) && e@ == error,
        },
{
    broadcast use Felt::lemma_of_value;

    match legacy_class_hash(artifact) {
        Err(reason) => Err(ShootError::MalformedArtifact(reason)),
        Ok(Err(reason)) => Err(ShootError::UnhashableArtifact(reason)),
        Ok(Ok(hash)) => Ok(hash),
    }
}

/// The hash under which a class is known after its declaration, of which
/// `class_hash` was computed from the artifact.
pub fn declared_class_hash(reply: &DeclareReply, class_hash: Felt) -> (hash: Felt)
    requires
        !(reply is Refused),
    ensures
        hash == class_after(*reply, class_hash),
{
    match reply {
        DeclareReply::Declared(hash) => *hash,
        _ => class_hash,
    }
}

impl GatlingShooter {
    /// The shooter is in a state that a simulation can be in.
    pub open spec fn wf(self) -> bool {
        &&& self@.wf()
        &&& self.report_wf()
    }

    /// Nothing is listed twice in the report.
    pub closed spec fn report_wf(self) -> bool {
        self.report.wf()
    }

    /// A simulation that has not started, of the configured deployer, whose next
    /// nonce is `nonce`. The configured node must have a URL.
    pub fn new(config: GatlingConfig, nonce: Felt) -> (result: Result<GatlingShooter, ShootError>)
        ensures
            match url_of(config.rpc.url@) {
                Ok(_) => result matches Ok(shooter) && shooter.wf() && shooter@ == initial(
                    config,
                    configured_deployer(config),
                    nonce,
                ),
                Err(reason) => result matches Err(e) && e@ == ErrorView::InvalidUrl(reason),
            },
    {
        match rpc_url(&config) {
            Ok(_) => {},
            Err(error) => {
                return Err(error);
            },
        }
        let deployer = deployer(&config);
        let shooter = GatlingShooter {
            config,
            deployer,
            nonce,
            environment: None,
            report: SimulationReport::default(),
            classes: Vec::new(),
            accounts: Vec::new(),
            contracts: Vec::new(),
            transactions: Vec::new(),
            counts: HashMap::new(),
            stage: Stage::ChainId,
        };
        assert(shooter@ =~= initial(config, deployer, nonce));
        assert(shooter@.report.reports.dom() =~= shooter@.reported());
        Ok(shooter)
    }

    /// The environment, once the setup phase has populated it.
    pub fn environment(&self) -> (environment: Result<GatlingEnvironment, ShootError>)
        ensures
            match self@.populated() {
                Ok(populated) => environment matches Ok(e) && e@ == populated,
                Err(error) => environment matches Err(e) && e@ == error,
            },
    {
        match &self.environment {
            Some(environment) => Ok(environment.clone()),
            None => Err(ShootError::EnvironmentNotPopulated),
        }
    }

    /// The transfer that is sent next to `contract_address`.
    pub fn transfer(&self, contract_address: Felt) -> (invocation: Invocation)
        ensures
            invocation@ == self@.transfer(contract_address),
    {
        Invocation { call: transfer_call(contract_address), max_fee: max_fee(), nonce: self.nonce }
    }

    /// The mint of `token_id` that is sent next to `contract_address`.
    pub fn mint(&self, token_id: Felt, contract_address: Felt) -> (invocation: Invocation)
        ensures
            invocation@ == self@.mint(token_id, contract_address),
    {
        Invocation {
            call: mint_call(token_id, contract_address),
            max_fee: max_fee(),
            nonce: self.nonce,
        }
    }

    /// The deployment of a token contract that is sent next.
    fn deploy(&self, salt: Felt) -> (deployment: Deployment)
        requires
            self@.classes.len() == 3,
        ensures
            deployment@ == self@.deploy(salt),
    {
        Deployment {
            class_hash: self.classes[1],
            salt,
            constructor_args: constructor_args(self.deployer.address),
            unique: false,
            max_fee: deploy_max_fee(),
            nonce: self.nonce,
        }
    }

    /// Where the account deployed with `salt` lands.
    fn account_address(&self, salt: Felt) -> (address: Felt)
        requires
            self@.classes.len() == 3,
        ensures
            address == self@.account_address(salt),
    {
        let mut args: Vec<Felt> = Vec::new();
        args.push(self.deployer.public_key());
        assert(args@ =~= seq![self.deployer.spec_public_key()]);
        calculate_contract_address(salt, self.classes[2], &args)
    }

    /// The path of the artifact to declare next.
    fn artifact_path(&self) -> (path: String)
        ensures
            path@ == self@.artifact_path(),
    {
        if self.classes.len() == 0 {
            self.config.simulation.setup.erc20_contract_path.clone()
        } else if self.classes.len() == 1 {
            self.config.simulation.setup.erc721_contract_path.clone()
        } else {
            self.config.simulation.setup.account_contract_path.clone()
        }
    }

    /// What to do next; nothing once the simulation is over.
    pub fn pending(&self) -> (action: Option<Action>)
        requires
            self.wf(),
        ensures
            match self@.pending() {
                Some(expected) => action matches Some(a) && a@ == expected,
                None => action is None,
            },
    {
        let action = match self.stage {
            Stage::ChainId => Action::ReadChainId,
            Stage::BlockNumber { .. } => Action::ReadBlockNumber,
            Stage::ReadArtifact => Action::ReadArtifact { path: self.artifact_path() },
            Stage::Declare { class_hash } => Action::Declare {
                class_hash,
                block: BlockTag::Pending,
            },
            Stage::PrepareAccount => Action::PrepareAccount {
                class_hash: self.classes[2],
                chain_id: self.deployer.chain_id,
                block: BlockTag::Pending,
            },
            Stage::AccountSalt => Action::DrawRandom,
            Stage::DeployAccount { salt } => Action::DeployAccount { salt },
            Stage::AwaitAccount { transaction, .. } => Action::AwaitTransaction { transaction },
            Stage::FundAccount { address } => Action::Invoke(self.transfer(address)),
            Stage::ContractSalt => Action::DrawRandom,
            Stage::DeployContract { salt } => Action::Deploy(self.deploy(salt)),
            Stage::AwaitContract { transaction, .. } => Action::AwaitTransaction { transaction },
            Stage::Transfer => match &self.environment {
                Some(environment) => Action::Invoke(self.transfer(environment.erc20_address)),
                None => {
                    return None;
                },
            },
            Stage::TokenId => match &self.environment {
                Some(_) => Action::DrawRandom,
                None => {
                    return None;
                },
            },
            Stage::Mint { token_id } => match &self.environment {
                Some(environment) => Action::Invoke(
                    self.mint(token_id, environment.erc721_address),
                ),
                None => {
                    return None;
                },
            },
            Stage::Check { checked, .. } => Action::AwaitTransaction {
                transaction: self.transactions[checked],
            },
            Stage::LatestBlock { .. } => Action::ReadBlockNumber,
            Stage::CountBlock { block, .. } => Action::CountTransactions { block },
            Stage::Metrics { .. } => Action::ComputeMetrics,
            Stage::TearDown => Action::TearDown,
            Stage::Finished => {
                return None;
            },
        };
        Some(action)
    }

    /// Whether `event` is a reply that the simulation can go on from or report
    /// as an error.
    pub fn accepts(&self, event: &Event) -> (accepted: bool)
        ensures
            accepted == self@.accepts(*event),
    {
        match (self.stage, event) {
            (Stage::ChainId, Event::ChainId(_)) => true,
            (Stage::BlockNumber { .. }, Event::BlockNumber { .. }) => true,
            (Stage::ReadArtifact, Event::Artifact(_)) => true,
            (Stage::Declare { .. }, Event::Declaration(reply)) => match reply {
                DeclareReply::Refused(_) => false,
                _ => true,
            },
            (Stage::PrepareAccount, Event::FactoryReady) => true,
            (Stage::AccountSalt, Event::Random(_)) => true,
            (Stage::DeployAccount { .. }, Event::AccountSent { .. }) => true,
            (Stage::AwaitAccount { .. }, Event::Confirmed) => true,
            (Stage::FundAccount { .. }, Event::Sent { .. }) => true,
            (Stage::ContractSalt, Event::Random(_)) => true,
            (Stage::DeployContract { .. }, Event::Sent { .. }) => true,
            (Stage::AwaitContract { .. }, Event::Confirmed) => true,
            (Stage::Transfer, Event::Sent { .. }) => true,
            (Stage::TokenId, Event::Random(_)) => true,
            (Stage::Mint { .. }, Event::Sent { .. }) => true,
            (Stage::Check { .. }, Event::Confirmed) => true,
            (Stage::LatestBlock { num_blocks, .. }, Event::BlockNumber { number, .. }) => num_blocks
                == 0 || num_blocks - 1 <= *number,
            (Stage::CountBlock { .. }, Event::TransactionCount(_)) => true,
            (Stage::Metrics { .. }, Event::Metrics(_)) => true,
            (Stage::TearDown, Event::TornDown) => true,
            (stage, Event::Failed(_)) => match stage {
                Stage::Declare { .. }
                | Stage::AccountSalt
                | Stage::ContractSalt
                | Stage::TokenId
                | Stage::Check { .. }
                | Stage::Metrics { .. }
                | Stage::TearDown
                | Stage::Finished => false,
                _ => true,
            },
            _ => false,
        }
    }

    /// The stage after a class is declared or an account created: the next
    /// account, or the token contracts.
    fn next_account(&self) -> (stage: Stage)
        ensures
            self@.next_account() == self@.at(stage),
    {
        if (self.accounts.len() as u64) < self.config.simulation.setup.num_accounts as u64 {
            Stage::PrepareAccount
        } else {
            Stage::ContractSalt
        }
    }

    /// Declares the class of an artifact: first its hash is computed, then the
    /// node answers.
    fn declare_contract_legacy(&mut self, event: Event) -> (result: Result<(), ShootError>)
        requires
            old(self).wf(),
            old(self)@.accepts(event),
            old(self)@.stage is ReadArtifact || old(self)@.stage is Declare,
            !(event is Failed),
        ensures
            final(self).report == old(self).report,
            match old(self)@.step(event) {
                Ok(next) => result is Ok && final(self)@ == next,
                Err(error) => result matches Err(e) && e@ == error && final(self)@ == old(self)@,
            },
    {
        match (self.stage, event) {
            (_, Event::Artifact(artifact)) => {
                let class_hash = class_hash_of_artifact(&artifact)?;
                self.stage = Stage::Declare { class_hash };
            },
            (Stage::Declare { class_hash }, Event::Declaration(reply)) => {
                self.classes.push(declared_class_hash(&reply, class_hash));
                self.stage = if self.classes.len() < 3 {
                    Stage::ReadArtifact
                } else {
                    self.next_account()
                };
            },
            _ => {},
        }
        Ok(())
    }

    /// Creates the accounts one after the other, each deployed, confirmed and
    /// given a transfer before the next.
    fn create_accounts(&mut self, event: Event)
        requires
            old(self).wf(),
            old(self)@.accepts(event),
            old(self)@.stage is PrepareAccount || old(self)@.stage is AccountSalt
                || old(self)@.stage is DeployAccount || old(self)@.stage is AwaitAccount
                || old(self)@.stage is FundAccount,
            !(event is Failed),
        ensures
            final(self).report == old(self).report,
            old(self)@.step(event) == Ok::<ShooterState, ErrorView>(final(self)@),
    {
        match (self.stage, event) {
            (_, Event::FactoryReady) => {
                self.stage = Stage::AccountSalt;
            },
            (Stage::AccountSalt, Event::Random(salt)) => {
                self.stage = Stage::DeployAccount { salt };
            },
            (
                Stage::DeployAccount { salt },
                Event::AccountSent { contract_address, transaction },
            ) => {
                let address = self.account_address(salt);
                self.accounts.push(contract_address);
                self.stage = Stage::AwaitAccount { address, transaction };
            },
            (Stage::AwaitAccount { address, .. }, _) => {
                self.stage = Stage::FundAccount { address };
            },
            _ => {
                self.nonce = next_nonce(self.nonce);
                self.stage = self.next_account();
            },
        }
    }

    /// Deploys the two token contracts; the second completes the environment.
    fn deploy_tokens(&mut self, event: Event)
        requires
            old(self).wf(),
            old(self)@.accepts(event),
            old(self)@.stage is ContractSalt || old(self)@.stage is DeployContract
                || old(self)@.stage is AwaitContract,
            !(event is Failed),
        ensures
            final(self).report == old(self).report,
            old(self)@.step(event) == Ok::<ShooterState, ErrorView>(final(self)@),
    {
        match (self.stage, event) {
            (_, Event::Random(salt)) => {
                self.stage = Stage::DeployContract { salt };
            },
            (Stage::DeployContract { salt }, Event::Sent { transaction }) => {
                self.nonce = next_nonce(self.nonce);
                self.stage = Stage::AwaitContract { salt, transaction };
            },
            (Stage::AwaitContract { salt, .. }, _) => {
                let args = constructor_args(self.deployer.address);
                let address = calculate_contract_address(salt, self.classes[1], &args);
                self.contracts.push(address);
                if self.contracts.len() < 2 {
                    self.stage = Stage::ContractSalt;
                } else {
                    self.environment = Some(
                        GatlingEnvironment {
                            erc20_class_hash: self.classes[0],
                            erc721_class_hash: self.classes[1],
                            account_class_hash: self.classes[2],
                            erc20_address: self.contracts[0],
                            erc721_address: self.contracts[1],
                            accounts: copy_felts(&self.accounts),
                        },
                    );
                    self.stage = Stage::Transfer;
                }
            },
            _ => {},
        }
    }

    /// Sends the ERC20 transfers. Without an environment there is nothing to send
    /// them to.
    fn run_erc20(&mut self, event: Event) -> (result: Result<(), ShootError>)
        requires
            old(self)@.accepts(event),
            old(self)@.stage is Transfer,
            !(event is Failed),
        ensures
            final(self).report == old(self).report,
            match old(self)@.step(event) {
                Ok(next) => result is Ok && final(self)@ == next,
                Err(error) => result matches Err(e) && e@ == error && final(self)@ == old(self)@,
            },
    {
        if self.environment.is_none() {
            return Err(ShootError::EnvironmentNotPopulated);
        }
        if let Event::Sent { transaction } = event {
            self.nonce = next_nonce(self.nonce);
            self.transactions.push(transaction);
            if self.transactions.len() >= NUM_ERC20_TRANSFERS {
                self.stage = Stage::Check { token: Token::Erc20, checked: 0 };
            }
        }
        Ok(())
    }

    /// Sends the ERC721 mints, each of a random token. Without an environment
    /// there is nothing to send them to.
    fn run_erc721(&mut self, event: Event) -> (result: Result<(), ShootError>)
        requires
            old(self)@.accepts(event),
            old(self)@.stage is TokenId || old(self)@.stage is Mint,
            !(event is Failed),
        ensures
            final(self).report == old(self).report,
            match old(self)@.step(event) {
                Ok(next) => result is Ok && final(self)@ == next,
                Err(error) => result matches Err(e) && e@ == error && final(self)@ == old(self)@,
            },
    {
        if self.environment.is_none() {
            return Err(ShootError::EnvironmentNotPopulated);
        }
        match event {
            Event::Random(token_id) => {
                self.stage = Stage::Mint { token_id };
            },
            Event::Sent { transaction } => {
                self.nonce = next_nonce(self.nonce);
                self.transactions.push(transaction);
                self.stage = if self.transactions.len() < NUM_ERC721_MINTS {
                    Stage::TokenId
                } else {
                    Stage::Check { token: Token::Erc721, checked: 0 }
                };
            },
            _ => {},
        }
        Ok(())
    }

    /// Checks the transactions sent, in the order in which they were sent.
    fn check_transactions(&mut self, event: Event)
        requires
            old(self)@.transactions_fit(),
            old(self)@.accepts(event),
            old(self)@.stage is Check,
            !(event is Failed),
        ensures
            final(self).report == old(self).report,
            old(self)@.step(event) == Ok::<ShooterState, ErrorView>(final(self)@),
    {
        if let Stage::Check { token, checked } = self.stage {
            self.stage = if checked + 1 < self.transactions.len() {
                Stage::Check { token, checked: checked + 1 }
            } else {
                Stage::LatestBlock { token, num_blocks: NUM_BLOCKS }
            };
        }
    }

    /// Counts the transactions of each of the last blocks, as many as the stage
    /// asks for, the latest one included.
    fn get_num_tx_per_block(&mut self, event: Event)
        requires
            old(self)@.accepts(event),
            old(self)@.stage is LatestBlock || old(self)@.stage is CountBlock,
            !(event is Failed),
        ensures
            final(self).report == old(self).report,
            old(self)@.step(event) == Ok::<ShooterState, ErrorView>(final(self)@),
    {
        match (self.stage, event) {
            (Stage::LatestBlock { token, num_blocks }, Event::BlockNumber { number, .. }) => {
                self.counts = HashMap::new();
                self.stage = if num_blocks == 0 {
                    Stage::Metrics { token, latest: number }
                } else {
                    Stage::CountBlock { token, block: number - (num_blocks - 1), latest: number }
                };
            },
            (Stage::CountBlock { token, block, latest }, Event::TransactionCount(count)) => {
                self.counts.insert(block, count);
                self.stage = if block < latest {
                    Stage::CountBlock { token, block: block + 1, latest }
                } else {
                    Stage::Metrics { token, latest }
                };
            },
            _ => {},
        }
    }

    /// Files the metrics of a token and goes on to the other token, or to the
    /// teardown.
    fn report_metrics(&mut self, event: Event)
        requires
            old(self).report_wf(),
            old(self)@.accepts(event),
            old(self)@.stage is Metrics,
        ensures
            final(self).report.wf(),
            old(self)@.step(event) == Ok::<ShooterState, ErrorView>(final(self)@),
    {
        if let (Stage::Metrics { token, .. }, Event::Metrics(metrics)) = (self.stage, event) {
            self.report.record(token.name(), metrics);
            self.transactions = Vec::new();
            self.stage = match token {
                Token::Erc20 => Stage::TokenId,
                Token::Erc721 => Stage::TearDown,
            };
        }
    }

    /// The setup phase: the chain is identified, three classes are declared, the
    /// accounts created and the token contracts deployed.
    fn setup(&mut self, event: Event) -> (result: Result<(), ShootError>)
        requires
            old(self).wf(),
            old(self)@.accepts(event),
            old(self)@.in_setup(),
            !(event is Failed),
        ensures
            final(self).report == old(self).report,
            match old(self)@.step(event) {
                Ok(next) => result is Ok && final(self)@ == next,
                Err(error) => result matches Err(e) && e@ == error && final(self)@ == old(self)@,
            },
    {
        match (self.stage, &event) {
            (Stage::ChainId, Event::ChainId(chain_id)) => {
                self.stage = Stage::BlockNumber { chain_id: *chain_id };
            },
            (Stage::BlockNumber { chain_id }, Event::BlockNumber { announced, .. }) => {
                if *announced {
                    match chain_name(chain_id) {
                        Ok(_) => {},
                        Err(error) => {
                            return Err(error);
                        },
                    }
                }
                self.stage = Stage::ReadArtifact;
            },
            (Stage::ReadArtifact | Stage::Declare { .. }, _) => {
                return self.declare_contract_legacy(event);
            },
            (
                Stage::ContractSalt
                | Stage::DeployContract { .. }
                | Stage::AwaitContract { .. },
                _,
            ) => {
                self.deploy_tokens(event);
            },
            _ => {
                self.create_accounts(event);
            },
        }
        Ok(())
    }

    /// The run phase: for each token, the transactions are sent and checked, the
    /// last blocks counted and the metrics filed.
    fn run(&mut self, event: Event) -> (result: Result<(), ShootError>)
        requires
            old(self).report_wf(),
            old(self)@.transactions_fit(),
            old(self)@.accepts(event),
            old(self)@.fires_at(Token::Erc20) || old(self)@.fires_at(Token::Erc721),
            !(event is Failed),
        ensures
            final(self).report.wf(),
            match old(self)@.step(event) {
                Ok(next) => result is Ok && final(self)@ == next,
                Err(error) => result matches Err(e) && e@ == error && final(self)@ == old(self)@,
            },
    {
        match self.stage {
            Stage::Transfer => {
                return self.run_erc20(event);
            },
            Stage::TokenId | Stage::Mint { .. } => {
                return self.run_erc721(event);
            },
            Stage::Check { .. } => self.check_transactions(event),
            Stage::Metrics { .. } => self.report_metrics(event),
            _ => self.get_num_tx_per_block(event),
        }
        Ok(())
    }

    /// Takes the reply to the pending action. A failure is returned and changes
    /// nothing.
    pub fn handle(&mut self, event: Event) -> (result: Result<(), ShootError>)
        requires
            old(self).wf(),
            old(self)@.accepts(event),
        ensures
            final(self).wf(),
            match old(self)@.step(event) {
                Ok(next) => result is Ok && final(self)@ == next,
                Err(error) => result matches Err(e) && e@ == error && final(self)@ == old(self)@,
            },
    {
        proof {
            if self@.step(event) is Ok {
                law_step_keeps_wf(self@, event);
            }
        }
        if let Event::Failed(reason) = event {
            return Err(ShootError::Remote(reason));
        }
        match self.stage {
            Stage::TearDown => {
                self.stage = Stage::Finished;
                Ok(())
            },
            Stage::Transfer
            | Stage::TokenId
            | Stage::Mint { .. }
            | Stage::Check { .. }
            | Stage::LatestBlock { .. }
            | Stage::CountBlock { .. }
            | Stage::Metrics { .. } => self.run(event),
            _ => self.setup(event),
        }
    }

    /// What the simulation is waiting for.
    pub fn stage(&self) -> (stage: Stage)
        ensures
            stage == self@.stage,
    {
        self.stage
    }

    /// The transactions counted per block.
    pub fn num_tx_per_block(&self) -> (counts: &HashMap<u64, u64>)
        ensures
            counts@ == self@.counts,
    {
        &self.counts
    }

    /// The metrics that the teardown shows: of the ERC20 transfers and of the
    /// ERC721 mints.
    pub fn teardown(&self) -> (metrics: (&Table<String>, &Table<String>))
        requires
            self.wf(),
            self@.stage is TearDown || self@.stage is Finished,
        ensures
            texts(metrics.0@) == self@.report.reports["erc20"@],
            texts(metrics.1@) == self@.report.reports["erc721"@],
            metrics.0.wf(),
            metrics.1.wf(),
    {
        let erc20 = self.report.metrics_of("erc20");
        let erc721 = self.report.metrics_of("erc721");
        (erc20.unwrap(), erc721.unwrap())
    }

    /// The report on a simulation that is over.
    pub fn into_report(self) -> (report: SimulationReport)
        requires
            self.wf(),
        ensures
            report.wf(),
            report@ == self@.report,
    {
        self.report
    }
}

} // verus!
