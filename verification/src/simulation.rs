//! The simulation as a state machine: which request comes next, and what the
//! reply to it changes.
use crate::bindings::{artifact_class_hash, artifact_parse};
use crate::config::GatlingConfig;
use crate::connection::{chain_text, Deployer};
use crate::environment::EnvironmentView;
use crate::error::ErrorView;
use crate::felt::Felt;
use crate::report::{empty_report, ReportView};
use crate::requests::{
    deployment_fee, invocation_fee, mint_call_to, plain_address, token_args, transfer_call_to,
    Deployment, DeploymentView, Invocation, InvocationView,
};
use vstd::prelude::*;

verus! {

/// How many ERC20 transfers a simulation sends.
pub const NUM_ERC20_TRANSFERS: usize = 1000;

/// How many ERC721 mints a simulation sends.
pub const NUM_ERC721_MINTS: usize = 1000;

/// How many of the last blocks the metrics are computed from, the latest one
/// included.
pub const NUM_BLOCKS: u64 = 4;

/// The tokens that a simulation fires at.
#[derive(Clone, Copy, Debug, PartialEq, Eq)]
pub enum Token {
    Erc20,
    Erc721,
}

impl Token {
    /// The name under which the token's metrics are filed.
    pub open spec fn spec_name(self) -> Seq<char> {
        match self {
            Token::Erc20 => "erc20"@,
            Token::Erc721 => "erc721"@,
        }
    }

    /// The name under which the token's metrics are filed.
    pub fn name(&self) -> (name: &'static str)
        ensures
            name@ == self.spec_name(),
    {
        match self {
            Token::Erc20 => "erc20",
            Token::Erc721 => "erc721",
        }
    }

    /// How many transactions are sent to the token.
    pub open spec fn volume(self) -> nat {
        match self {
            Token::Erc20 => NUM_ERC20_TRANSFERS as nat,
            Token::Erc721 => NUM_ERC721_MINTS as nat,
        }
    }
}

/// The block against which classes are declared and accounts deployed.
#[derive(Clone, Copy, Debug, PartialEq, Eq)]
pub enum BlockTag {
    Pending,
}

/// What a simulation is waiting for.
#[derive(Clone, Copy, Debug, PartialEq, Eq)]
pub enum Stage {
    /// The id of the chain.
    ChainId,
    /// The number of the latest block.
    BlockNumber { chain_id: Felt },
    /// The artifact of the next class to declare.
    ReadArtifact,
    /// The declaration of the class with this hash.
    Declare { class_hash: Felt },
    /// The factory for the next account.
    PrepareAccount,
    /// The salt of the next account.
    AccountSalt,
    /// The transaction that deploys the next account.
    DeployAccount { salt: Felt },
    /// The confirmation of that transaction.
    AwaitAccount { address: Felt, transaction: Felt },
    /// The transfer to the account just deployed.
    FundAccount { address: Felt },
    /// The salt of the next token contract.
    ContractSalt,
    /// The transaction that deploys the next token contract.
    DeployContract { salt: Felt },
    /// The confirmation of that transaction.
    AwaitContract { salt: Felt, transaction: Felt },
    /// The next ERC20 transfer.
    Transfer,
    /// The id of the next ERC721 token.
    TokenId,
    /// The next ERC721 mint.
    Mint { token_id: Felt },
    /// The confirmation of the transaction after the first `checked`.
    Check { token: Token, checked: usize },
    /// The number of the latest block, of which and before which `num_blocks`
    /// blocks are counted.
    LatestBlock { token: Token, num_blocks: u64 },
    /// The number of transactions in `block`, of the blocks up to `latest`.
    CountBlock { token: Token, block: u64, latest: u64 },
    /// The metrics of the blocks up to `latest`.
    Metrics { token: Token, latest: u64 },
    /// The end of the teardown.
    TearDown,
    /// Nothing: the simulation is over.
    Finished,
}

/// What the driver of a simulation does next.
#[derive(Clone, Debug, PartialEq, Eq)]
pub enum Action {
    /// Ask the node for its chain id.
    ReadChainId,
    /// Ask the node for the number of its latest block.
    ReadBlockNumber,
    /// Read the contract artifact at `path`.
    ReadArtifact { path: String },
    /// Declare the class of the artifact just read, against `block`.
    Declare { class_hash: Felt, block: BlockTag },
    /// Make the factory for accounts of the class, against `block`.
    PrepareAccount { class_hash: Felt, chain_id: Felt, block: BlockTag },
    /// Draw a random field element.
    DrawRandom,
    /// Deploy an account with this salt from the factory just made.
    DeployAccount { salt: Felt },
    /// Wait until the transaction is confirmed.
    AwaitTransaction { transaction: Felt },
    /// Send a call.
    Invoke(Invocation),
    /// Send the deployment of a contract.
    Deploy(Deployment),
    /// Ask the node how many transactions the block holds.
    CountTransactions { block: u64 },
    /// Compute the metrics of the transaction counts.
    ComputeMetrics,
    /// Show the system and the metrics.
    TearDown,
}

pub enum ActionView {
    ReadChainId,
    ReadBlockNumber,
    ReadArtifact { path: Seq<char> },
    Declare { class_hash: Felt, block: BlockTag },
    PrepareAccount { class_hash: Felt, chain_id: Felt, block: BlockTag },
    DrawRandom,
    DeployAccount { salt: Felt },
    AwaitTransaction { transaction: Felt },
    Invoke(InvocationView),
    Deploy(DeploymentView),
    CountTransactions { block: u64 },
    ComputeMetrics,
    TearDown,
}

impl View for Action {
    type V = ActionView;

    open spec fn view(&self) -> ActionView {
        match *self {
            Action::ReadChainId => ActionView::ReadChainId,
            Action::ReadBlockNumber => ActionView::ReadBlockNumber,
            Action::ReadArtifact { path } => ActionView::ReadArtifact { path: path@ },
            Action::Declare { class_hash, block } => ActionView::Declare { class_hash, block },
            Action::PrepareAccount { class_hash, chain_id, block } => ActionView::PrepareAccount {
                class_hash,
                chain_id,
                block,
            },
            Action::DrawRandom => ActionView::DrawRandom,
            Action::DeployAccount { salt } => ActionView::DeployAccount { salt },
            Action::AwaitTransaction { transaction } => ActionView::AwaitTransaction {
                transaction,
            },
            Action::Invoke(invocation) => ActionView::Invoke(invocation@),
            Action::Deploy(deployment) => ActionView::Deploy(deployment@),
            Action::CountTransactions { block } => ActionView::CountTransactions { block },
            Action::ComputeMetrics => ActionView::ComputeMetrics,
            Action::TearDown => ActionView::TearDown,
        }
    }
}

/// What came of an action.
#[derive(Clone, Debug, PartialEq, Eq)]
pub enum Event {
    /// The id of the chain.
    ChainId(Felt),
    /// The number of the latest block. `announced` says whether the start of the
    /// simulation is shown to the user, with the name of the chain.
    BlockNumber { number: u64, announced: bool },
    /// The bytes of an artifact.
    Artifact(Vec<u8>),
    /// The node's answer to a declaration.
    Declaration(DeclareReply),
    /// The factory for accounts is ready.
    FactoryReady,
    /// A random field element.
    Random(Felt),
    /// The deployment of an account was sent; the node puts it at
    /// `contract_address`.
    AccountSent { contract_address: Felt, transaction: Felt },
    /// A transaction is confirmed.
    Confirmed,
    /// A transaction of the deployer was sent.
    Sent { transaction: Felt },
    /// The number of transactions in a block.
    TransactionCount(u64),
    /// The names and the rendered values of the metrics.
    Metrics(Vec<(String, String)>),
    /// The teardown is done.
    TornDown,
    /// The action failed, for this reason.
    Failed(String),
}

/// The node's answer to a declaration.
#[derive(Clone, Debug, PartialEq, Eq)]
pub enum DeclareReply {
    /// The class is declared, with the hash that the node gives it.
    Declared(Felt),
    /// The class had been declared before.
    ClassAlreadyDeclared,
    /// The node refused the declaration, for this reason.
    Refused(String),
}

/// The state of a simulation.
#[verifier::ext_equal]
pub struct ShooterState {
    pub config: GatlingConfig,
    pub deployer: Deployer,
    /// The nonce of the deployer's next transaction.
    pub nonce: Felt,
    /// Populated by the setup phase.
    pub environment: Option<EnvironmentView>,
    pub report: ReportView,
    /// The hashes of the classes declared so far: of the ERC20 token, of the
    /// ERC721 token and of the accounts.
    pub classes: Seq<Felt>,
    /// The accounts created so far.
    pub accounts: Seq<Felt>,
    /// The token contracts deployed so far: ERC20, then ERC721.
    pub contracts: Seq<Felt>,
    /// The transactions sent so far to the token being fired at.
    pub transactions: Seq<Felt>,
    /// The number of transactions in each block counted so far.
    pub counts: Map<u64, u64>,
    pub stage: Stage,
}

/// A simulation that has not started.
pub open spec fn initial(config: GatlingConfig, deployer: Deployer, nonce: Felt) -> ShooterState {
    ShooterState {
        config,
        deployer,
        nonce,
        environment: None,
        report: empty_report(),
        classes: Seq::empty(),
        accounts: Seq::empty(),
        contracts: Seq::empty(),
        transactions: Seq::empty(),
        counts: Map::empty(),
        stage: Stage::ChainId,
    }
}

/// The hash of the class in a contract artifact, or why there is none.
pub open spec fn class_hash_in(artifact: Seq<u8>) -> Result<Felt, ErrorView> {
    match artifact_parse(artifact) {
        Err(reason) => Err(ErrorView::MalformedArtifact(reason)),
        Ok(_) => match artifact_class_hash(artifact) {
            Err(reason) => Err(ErrorView::UnhashableArtifact(reason)),
            Ok(hash) => Ok(Felt::of(hash)),
        },
    }
}

/// The last `num_blocks` blocks, of which `latest` is the last.
pub open spec fn block_window(latest: u64, num_blocks: u64) -> Set<u64> {
    Set::new(|block: u64| latest - num_blocks < block <= latest)
}

/// The hash under which a class is known after its declaration: the node's, or
/// the one computed from the artifact where the node has the class already.
pub open spec fn class_after(reply: DeclareReply, class_hash: Felt) -> Felt {
    match reply {
        DeclareReply::Declared(hash) => hash,
        _ => class_hash,
    }
}

impl ShooterState {
    pub open spec fn num_accounts(self) -> nat {
        self.config.simulation.setup.num_accounts as nat
    }

    /// The artifact of the next class.
    pub open spec fn artifact_path(self) -> Seq<char> {
        let setup = self.config.simulation.setup;
        if self.classes.len() == 0 {
            setup.erc20_contract_path@
        } else if self.classes.len() == 1 {
            setup.erc721_contract_path@
        } else {
            setup.account_contract_path@
        }
    }

    /// The class of both token contracts: the ERC721 one.
    pub open spec fn token_class(self) -> Felt {
        self.classes[1]
    }

    /// Where the account deployed with `salt` lands. The deployer's public key
    /// owns it.
    pub open spec fn account_address(self, salt: Felt) -> Felt {
        plain_address(salt, self.classes[2], seq![self.deployer.spec_public_key()])
    }

    /// A call with the next nonce.
    pub open spec fn transfer(self, contract: Felt) -> InvocationView {
        InvocationView {
            call: transfer_call_to(contract),
            max_fee: invocation_fee(),
            nonce: self.nonce,
        }
    }

    pub open spec fn mint(self, token_id: Felt, contract: Felt) -> InvocationView {
        InvocationView {
            call: mint_call_to(token_id, contract),
            max_fee: invocation_fee(),
            nonce: self.nonce,
        }
    }

    pub open spec fn deploy(self, salt: Felt) -> DeploymentView {
        DeploymentView {
            class_hash: self.token_class(),
            salt,
            constructor_args: token_args(self.deployer.address),
            unique: false,
            max_fee: deployment_fee(),
            nonce: self.nonce,
        }
    }

    /// The environment, or the error in its place until the setup phase has
    /// populated it.
    pub open spec fn populated(self) -> Result<EnvironmentView, ErrorView> {
        match self.environment {
            Some(environment) => Ok(environment),
            None => Err(ErrorView::EnvironmentNotPopulated),
        }
    }

    /// What the driver does next; nothing once the simulation is over, and nothing
    /// to a token before the environment is populated.
    pub open spec fn pending(self) -> Option<ActionView> {
        match self.stage {
            Stage::ChainId => Some(ActionView::ReadChainId),
            Stage::BlockNumber { .. } => Some(ActionView::ReadBlockNumber),
            Stage::ReadArtifact => Some(ActionView::ReadArtifact { path: self.artifact_path() }),
            Stage::Declare { class_hash } => Some(
                ActionView::Declare { class_hash, block: BlockTag::Pending },
            ),
            Stage::PrepareAccount => Some(
                ActionView::PrepareAccount {
                    class_hash: self.classes[2],
                    chain_id: self.deployer.chain_id,
                    block: BlockTag::Pending,
                },
            ),
            Stage::AccountSalt => Some(ActionView::DrawRandom),
            Stage::DeployAccount { salt } => Some(ActionView::DeployAccount { salt }),
            Stage::AwaitAccount { transaction, .. } => Some(
                ActionView::AwaitTransaction { transaction },
            ),
            Stage::FundAccount { address } => Some(ActionView::Invoke(self.transfer(address))),
            Stage::ContractSalt => Some(ActionView::DrawRandom),
            Stage::DeployContract { salt } => Some(ActionView::Deploy(self.deploy(salt))),
            Stage::AwaitContract { transaction, .. } => Some(
                ActionView::AwaitTransaction { transaction },
            ),
            Stage::Transfer => match self.populated() {
                Ok(environment) => Some(
                    ActionView::Invoke(self.transfer(environment.erc20_address)),
                ),
                Err(_) => None,
            },
            Stage::TokenId => match self.populated() {
                Ok(_) => Some(ActionView::DrawRandom),
                Err(_) => None,
            },
            Stage::Mint { token_id } => match self.populated() {
                Ok(environment) => Some(
                    ActionView::Invoke(self.mint(token_id, environment.erc721_address)),
                ),
                Err(_) => None,
            },
            Stage::Check { checked, .. } => Some(
                ActionView::AwaitTransaction { transaction: self.transactions[checked as int] },
            ),
            Stage::LatestBlock { .. } => Some(ActionView::ReadBlockNumber),
            Stage::CountBlock { block, .. } => Some(ActionView::CountTransactions { block }),
            Stage::Metrics { .. } => Some(ActionView::ComputeMetrics),
            Stage::TearDown => Some(ActionView::TearDown),
            Stage::Finished => None,
        }
    }

    /// Whether a failure of the pending action ends the simulation with an
    /// error. Where it does not, the action cannot fail, or its failure is not
    /// for the simulation to survive.
    pub open spec fn may_fail(self) -> bool {
        match self.stage {
            Stage::ChainId => true,
            Stage::BlockNumber { .. } => true,
            Stage::ReadArtifact => true,
            Stage::PrepareAccount => true,
            Stage::DeployAccount { .. } => true,
            Stage::AwaitAccount { .. } => true,
            Stage::FundAccount { .. } => true,
            Stage::DeployContract { .. } => true,
            Stage::AwaitContract { .. } => true,
            Stage::Transfer => true,
            Stage::Mint { .. } => true,
            Stage::LatestBlock { .. } => true,
            Stage::CountBlock { .. } => true,
            _ => false,
        }
    }

    /// Whether `event` is a reply to the pending action that the simulation can
    /// go on from or report as an error.
    pub open spec fn accepts(self, event: Event) -> bool {
        match event {
            Event::Failed(_) => self.may_fail(),
            Event::ChainId(_) => self.stage is ChainId,
            Event::BlockNumber { number, .. } => match self.stage {
                Stage::BlockNumber { .. } => true,
                Stage::LatestBlock { num_blocks, .. } => num_blocks <= number + 1,
                _ => false,
            },
            Event::Artifact(_) => self.stage is ReadArtifact,
            Event::Declaration(reply) => self.stage is Declare && !(reply is Refused),
            Event::FactoryReady => self.stage is PrepareAccount,
            Event::Random(_) => self.stage is AccountSalt || self.stage is ContractSalt
                || self.stage is TokenId,
            Event::AccountSent { .. } => self.stage is DeployAccount,
            Event::Confirmed => self.stage is AwaitAccount || self.stage is AwaitContract
                || self.stage is Check,
            Event::Sent { .. } => self.stage is FundAccount || self.stage is DeployContract
                || self.stage is Transfer || self.stage is Mint,
            Event::TransactionCount(_) => self.stage is CountBlock,
            Event::Metrics(_) => self.stage is Metrics,
            Event::TornDown => self.stage is TearDown,
        }
    }

    pub open spec fn at(self, stage: Stage) -> ShooterState {
        ShooterState { stage, ..self }
    }

    /// The state with the next nonce.
    pub open spec fn bumped(self) -> ShooterState {
        ShooterState { nonce: self.nonce.plus(Felt::of(1)), ..self }
    }

    /// With the classes declared: accounts first, if there are any to create.
    pub open spec fn next_account(self) -> ShooterState {
        self.at(
            if self.accounts.len() < self.num_accounts() {
                Stage::PrepareAccount
            } else {
                Stage::ContractSalt
            },
        )
    }

    /// After one more class.
    pub open spec fn with_class(self, class_hash: Felt) -> ShooterState {
        let next = ShooterState { classes: self.classes.push(class_hash), ..self };
        if next.classes.len() < 3 {
            next.at(Stage::ReadArtifact)
        } else {
            next.next_account()
        }
    }

    /// After one more token contract; the second completes the environment.
    pub open spec fn with_contract(self, address: Felt) -> ShooterState {
        let next = ShooterState { contracts: self.contracts.push(address), ..self };
        if next.contracts.len() < 2 {
            next.at(Stage::ContractSalt)
        } else {
            ShooterState {
                environment: Some(
                    EnvironmentView {
                        erc20_class_hash: self.classes[0],
                        erc721_class_hash: self.classes[1],
                        account_class_hash: self.classes[2],
                        erc20_address: next.contracts[0],
                        erc721_address: next.contracts[1],
                        accounts: self.accounts,
                    },
                ),
                ..next
            }.at(Stage::Transfer)
        }
    }

    /// After one more transaction to `token`, from which `more` are sent.
    pub open spec fn with_transaction(
        self,
        transaction: Felt,
        token: Token,
        more: Stage,
    ) -> ShooterState {
        let next = ShooterState { transactions: self.transactions.push(transaction), ..self };
        next.at(
            if next.transactions.len() < token.volume() {
                more
            } else {
                Stage::Check { token, checked: 0 }
            },
        )
    }

    /// After the report on `token`: the other token, or the end.
    pub open spec fn with_metrics(
        self,
        token: Token,
        metrics: Seq<(String, String)>,
    ) -> ShooterState {
        ShooterState {
            report: self.report.filed(token.spec_name(), metrics),
            transactions: Seq::empty(),
            ..self
        }.at(
            match token {
                Token::Erc20 => Stage::TokenId,
                Token::Erc721 => Stage::TearDown,
            },
        )
    }

    /// What `event` makes of the state. Meant for the events it accepts.
    pub open spec fn step(self, event: Event) -> Result<ShooterState, ErrorView> {
        match (self.stage, event) {
            (_, Event::Failed(reason)) => Err(ErrorView::Remote(reason@)),
            (Stage::ChainId, Event::ChainId(chain_id)) => Ok(
                self.at(Stage::BlockNumber { chain_id }),
            ),
            (Stage::BlockNumber { chain_id }, Event::BlockNumber { announced, .. }) => {
                match chain_text(chain_id) {
                    Err(reason) if announced => Err(ErrorView::ChainIdNotText(reason)),
                    _ => Ok(self.at(Stage::ReadArtifact)),
                }
            },
            (Stage::ReadArtifact, Event::Artifact(artifact)) => match class_hash_in(artifact@) {
                Ok(class_hash) => Ok(self.at(Stage::Declare { class_hash })),
                Err(error) => Err(error),
            },
            (Stage::Declare { class_hash }, Event::Declaration(reply)) => Ok(
                self.with_class(class_after(reply, class_hash)),
            ),
            (Stage::PrepareAccount, Event::FactoryReady) => Ok(self.at(Stage::AccountSalt)),
            (Stage::AccountSalt, Event::Random(salt)) => Ok(
                self.at(Stage::DeployAccount { salt }),
            ),
            (
                Stage::DeployAccount { salt },
                Event::AccountSent { contract_address, transaction },
            ) => Ok(
                ShooterState { accounts: self.accounts.push(contract_address), ..self }.at(
                    Stage::AwaitAccount { address: self.account_address(salt), transaction },
                ),
            ),
            (Stage::AwaitAccount { address, .. }, Event::Confirmed) => Ok(
                self.at(Stage::FundAccount { address }),
            ),
            (Stage::FundAccount { .. }, Event::Sent { .. }) => Ok(self.bumped().next_account()),
            (Stage::ContractSalt, Event::Random(salt)) => Ok(
                self.at(Stage::DeployContract { salt }),
            ),
            (Stage::DeployContract { salt }, Event::Sent { transaction }) => Ok(
                self.bumped().at(Stage::AwaitContract { salt, transaction }),
            ),
            (Stage::AwaitContract { salt, .. }, Event::Confirmed) => Ok(
                self.with_contract(
                    plain_address(salt, self.token_class(), token_args(self.deployer.address)),
                ),
            ),
            (Stage::Transfer, Event::Sent { transaction }) => match self.populated() {
                Ok(_) => Ok(
                    self.bumped().with_transaction(transaction, Token::Erc20, Stage::Transfer),
                ),
                Err(error) => Err(error),
            },
            (Stage::TokenId, Event::Random(token_id)) => match self.populated() {
                Ok(_) => Ok(self.at(Stage::Mint { token_id })),
                Err(error) => Err(error),
            },
            (Stage::Mint { .. }, Event::Sent { transaction }) => match self.populated() {
                Ok(_) => Ok(
                    self.bumped().with_transaction(transaction, Token::Erc721, Stage::TokenId),
                ),
                Err(error) => Err(error),
            },
            (Stage::Check { token, checked }, Event::Confirmed) => Ok(
                self.at(
                    if checked + 1 < self.transactions.len() {
                        Stage::Check { token, checked: (checked + 1) as usize }
                    } else {
                        Stage::LatestBlock { token, num_blocks: NUM_BLOCKS }
                    },
                ),
            ),
            (Stage::LatestBlock { token, num_blocks }, Event::BlockNumber { number, .. }) => Ok(
                ShooterState { counts: Map::empty(), ..self }.at(
                    if num_blocks == 0 {
                        Stage::Metrics { token, latest: number }
                    } else {
                        Stage::CountBlock {
                            token,
                            block: (number - (num_blocks - 1)) as u64,
                            latest: number,
                        }
                    },
                ),
            ),
            (Stage::CountBlock { token, block, latest }, Event::TransactionCount(count)) => Ok(
                ShooterState { counts: self.counts.insert(block, count), ..self }.at(
                    if block < latest {
                        Stage::CountBlock { token, block: (block + 1) as u64, latest }
                    } else {
                        Stage::Metrics { token, latest }
                    },
                ),
            ),
            (Stage::Metrics { token, .. }, Event::Metrics(metrics)) => Ok(
                self.with_metrics(token, metrics@),
            ),
            (Stage::TearDown, Event::TornDown) => Ok(self.at(Stage::Finished)),
            _ => Ok(self),
        }
    }

    /// The stages before the environment is complete.
    pub open spec fn in_setup(self) -> bool {
        match self.stage {
            Stage::ChainId => true,
            Stage::BlockNumber { .. } => true,
            Stage::ReadArtifact => true,
            Stage::Declare { .. } => true,
            Stage::PrepareAccount => true,
            Stage::AccountSalt => true,
            Stage::DeployAccount { .. } => true,
            Stage::AwaitAccount { .. } => true,
            Stage::FundAccount { .. } => true,
            Stage::ContractSalt => true,
            Stage::DeployContract { .. } => true,
            Stage::AwaitContract { .. } => true,
            _ => false,
        }
    }

    /// The token whose part of the simulation is not over yet: its transactions
    /// are sent or checked, or its blocks counted.
    pub open spec fn fires_at(self, token: Token) -> bool {
        match self.stage {
            Stage::Transfer => token is Erc20,
            Stage::TokenId => token is Erc721,
            Stage::Mint { .. } => token is Erc721,
            Stage::Check { token: t, .. } => t == token,
            Stage::LatestBlock { token: t, .. } => t == token,
            Stage::CountBlock { token: t, .. } => t == token,
            Stage::Metrics { token: t, .. } => t == token,
            _ => false,
        }
    }

    /// The tokens that the report covers at this stage.
    pub open spec fn reported(self) -> Set<Seq<char>> {
        if self.in_setup() || self.fires_at(Token::Erc20) {
            Set::empty()
        } else if self.fires_at(Token::Erc721) {
            set![Token::Erc20.spec_name()]
        } else {
            set![Token::Erc20.spec_name(), Token::Erc721.spec_name()]
        }
    }

    /// How much of each list the stage has filled.
    pub open spec fn progress_fits(self) -> bool {
        match self.stage {
            Stage::ChainId | Stage::BlockNumber { .. } => self.classes.len() == 0
                && self.accounts.len() == 0 && self.contracts.len() == 0,
            Stage::ReadArtifact | Stage::Declare { .. } => self.classes.len() < 3
                && self.accounts.len() == 0 && self.contracts.len() == 0,
            Stage::PrepareAccount | Stage::AccountSalt | Stage::DeployAccount { .. } =>
                self.classes.len() == 3 && self.accounts.len() < self.num_accounts()
                && self.contracts.len() == 0,
            Stage::AwaitAccount { .. } | Stage::FundAccount { .. } => self.classes.len() == 3 && 0
                < self.accounts.len() <= self.num_accounts() && self.contracts.len() == 0,
            Stage::ContractSalt | Stage::DeployContract { .. } | Stage::AwaitContract { .. } =>
                self.classes.len() == 3 && self.accounts.len() == self.num_accounts()
                && self.contracts.len() < 2,
            _ => self.classes.len() == 3 && self.accounts.len() == self.num_accounts()
                && self.contracts.len() == 2,
        }
    }

    /// How many transactions the stage has sent to its token.
    pub open spec fn transactions_fit(self) -> bool {
        match self.stage {
            Stage::Transfer => self.transactions.len() < NUM_ERC20_TRANSFERS,
            Stage::TokenId | Stage::Mint { .. } => self.transactions.len() < NUM_ERC721_MINTS,
            Stage::Check { token, checked } => self.transactions.len() == token.volume() && checked
                < token.volume(),
            Stage::LatestBlock { token, .. } | Stage::CountBlock { token, .. } | Stage::Metrics {
                token,
                ..
            } => self.transactions.len() == token.volume(),
            _ => self.transactions.len() == 0,
        }
    }

    /// Which blocks the stage has counted: the last `NUM_BLOCKS` ones, from the
    /// first of them on.
    pub open spec fn counts_fit(self) -> bool {
        match self.stage {
            Stage::LatestBlock { num_blocks, .. } => num_blocks == NUM_BLOCKS,
            Stage::CountBlock { block, latest, .. } => {
                &&& NUM_BLOCKS <= latest + 1
                &&& block_window(latest, NUM_BLOCKS).contains(block)
                &&& forall|b: u64|
                    self.counts.contains_key(b) <==> latest - NUM_BLOCKS < b < block
            },
            Stage::Metrics { latest, .. } => {
                &&& NUM_BLOCKS <= latest + 1
                &&& self.counts.dom() =~= block_window(latest, NUM_BLOCKS)
            },
            _ => true,
        }
    }

    /// The environment, once it is complete, is made of what the setup phase
    /// has put on the chain.
    pub open spec fn environment_fits(self) -> bool {
        if self.in_setup() {
            self.environment is None
        } else {
            self.environment == Some(
                EnvironmentView {
                    erc20_class_hash: self.classes[0],
                    erc721_class_hash: self.classes[1],
                    account_class_hash: self.classes[2],
                    erc20_address: self.contracts[0],
                    erc721_address: self.contracts[1],
                    accounts: self.accounts,
                },
            )
        }
    }

    /// The states that a simulation can be in.
    pub open spec fn wf(self) -> bool {
        &&& self.progress_fits()
        &&& self.transactions_fit()
        &&& self.counts_fit()
        &&& self.environment_fits()
        &&& self.report.reports.dom() =~= self.reported()
    }
}

} // verus!
