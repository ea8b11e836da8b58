//! What the phases of a simulation amount to when nothing fails.
use crate::config::{GatlingConfig, SetupConfig, SimulationConfig};
use crate::connection::{chain_text, Deployer};
use crate::environment::EnvironmentView;
use crate::error::ErrorView;
use crate::felt::{prime, Felt};
use crate::laws::{
    advanced, after, count_events, law_account_creation, law_block_counts, law_checks,
    law_contract_deployment, law_declaration, law_mints, law_run_needs_setup,
    law_transfers, lemma_advanced,
    lemma_one_more, mint_events, sent_events, window_counts,
};
use crate::report::{last_of_each, texts, ReportView};
use crate::requests::{plain_address, token_args, InvocationView};
use crate::simulation::{
    class_after, class_hash_in, initial, ActionView, DeclareReply, Event, ShooterState, Stage, Token,
    NUM_BLOCKS,
};
use vstd::prelude::*;

verus! {

/// Replies in two parts lead where the second part leads from where the first
/// part has led.
pub proof fn law_replies_compose(state: ShooterState, first: Seq<Event>, second: Seq<Event>)
    ensures
        after(state, first + second) == match after(state, first) {
            None => None,
            Some(reached) => after(reached, second),
        },
    decreases second.len(),
{
    if second.len() == 0 {
        assert(first + second =~= first);
    } else {
        law_replies_compose(state, first, second.drop_last());
        assert((first + second).drop_last() =~= first + second.drop_last());
    }
}

proof fn lemma_advanced_twice(nonce: Felt, j: nat, k: nat)
    ensures
        advanced(nonce, j).value() < prime(),
        advanced(advanced(nonce, j), k) == advanced(nonce, j + k),
{
    broadcast use Felt::lemma_value_of;

    let sum = nonce.value() + j;
    assert((sum % prime() + k) % prime() == (sum + k) % prime());
}

/// The replies to the part of a simulation that fires at one token, once its
/// transactions are sent.
pub struct TokenReplies {
    /// The hashes of the transactions sent.
    pub transactions: Seq<Felt>,
    /// The number of the latest block.
    pub latest: u64,
    /// Whether that number is shown to the user.
    pub announced: bool,
    /// The number of transactions in each of the last blocks, that one included.
    pub counts: Seq<u64>,
    /// The metrics of these blocks.
    pub metrics: Vec<(String, String)>,
}

impl TokenReplies {
    /// There are as many replies as a simulation asks for.
    pub open spec fn complete(self, token: Token) -> bool {
        &&& self.transactions.len() == token.volume()
        &&& NUM_BLOCKS <= self.latest + 1
        &&& self.counts.len() == NUM_BLOCKS
    }

    /// The transactions of the blocks counted.
    pub open spec fn window(self) -> Map<u64, u64> {
        window_counts(self.latest, NUM_BLOCKS, self.counts)
    }

    /// The replies from the first check on.
    pub open spec fn closing_events(self) -> Seq<Event> {
        Seq::new(self.transactions.len(), |i: int| Event::Confirmed) + count_events(
            self.latest,
            self.announced,
            self.counts,
        ) + seq![Event::Metrics(self.metrics)]
    }
}

proof fn lemma_closing(state: ShooterState, token: Token, replies: TokenReplies)
    requires
        state.stage == (Stage::Check { token, checked: 0 }),
        state.transactions == replies.transactions,
        replies.complete(token),
    ensures
        after(state, replies.closing_events()) == Some(
            ShooterState { counts: replies.window(), ..state }.with_metrics(
                token,
                replies.metrics@,
            ),
        ),
{
    let checks = Seq::new(replies.transactions.len(), |i: int| Event::Confirmed);
    let counts = count_events(replies.latest, replies.announced, replies.counts);
    let metrics = Event::Metrics(replies.metrics);
    law_checks(state, token, replies.transactions.len());
    assert(checks =~= Seq::new(token.volume(), |i: int| Event::Confirmed));
    let checked = state.at(Stage::LatestBlock { token, num_blocks: NUM_BLOCKS });
    law_replies_compose(state, checks, counts);
    law_block_counts(
        checked,
        token,
        NUM_BLOCKS,
        replies.latest,
        replies.announced,
        replies.counts,
    );
    assert((checks + counts).push(metrics) =~= replies.closing_events());
    lemma_one_more(state, checks + counts, metrics);
}

/// The replies to the run phase.
pub struct RunReplies {
    pub erc20: TokenReplies,
    /// The token ids drawn for the mints.
    pub token_ids: Seq<Felt>,
    pub erc721: TokenReplies,
}

impl RunReplies {
    /// There are as many replies as a simulation asks for.
    pub open spec fn complete(self) -> bool {
        &&& self.erc20.complete(Token::Erc20)
        &&& self.erc721.complete(Token::Erc721)
        &&& self.token_ids.len() == self.erc721.transactions.len()
    }

    /// The replies up to the first ERC721 mint.
    pub open spec fn erc20_events(self) -> Seq<Event> {
        sent_events(self.erc20.transactions) + self.erc20.closing_events()
    }

    pub open spec fn events(self) -> Seq<Event> {
        self.erc20_events() + mint_events(self.token_ids, self.erc721.transactions)
            + self.erc721.closing_events()
    }

    /// What the run phase makes of a report.
    pub open spec fn filed_in(self, report: ReportView) -> ReportView {
        report.filed("erc20"@, self.erc20.metrics@).filed("erc721"@, self.erc721.metrics@)
    }
}

/// The state in which a run phase starts: nothing is sent yet.
pub open spec fn run_start(state: ShooterState) -> ShooterState {
    ShooterState { transactions: Seq::empty(), stage: Stage::Transfer, ..state }
}

/// A run phase started on a new shooter, without a setup phase, sends nothing: it
/// is answered by the error that says that the setup phase comes first.
pub proof fn law_run_before_setup(
    config: GatlingConfig,
    deployer: Deployer,
    nonce: Felt,
    event: Event,
)
    requires
        run_start(initial(config, deployer, nonce)).accepts(event),
        !(event is Failed),
    ensures
        run_start(initial(config, deployer, nonce)).pending() is None,
        run_start(initial(config, deployer, nonce)).step(event) == Err::<ShooterState, ErrorView>(
            ErrorView::EnvironmentNotPopulated,
        ),
{
    law_run_needs_setup(run_start(initial(config, deployer, nonce)), event);
}

proof fn lemma_erc20_run(state: ShooterState, replies: RunReplies)
    requires
        state.environment is Some,
        state.nonce.value() < prime(),
        replies.complete(),
    ensures
        after(run_start(state), replies.erc20_events()) == Some(
            ShooterState {
                nonce: advanced(state.nonce, 1000),
                transactions: Seq::empty(),
                counts: replies.erc20.window(),
                report: state.report.filed("erc20"@, replies.erc20.metrics@),
                stage: Stage::TokenId,
                ..state
            },
        ),
{
    let start = run_start(state);
    let transfers = sent_events(replies.erc20.transactions);
    law_transfers(start, replies.erc20.transactions);
    let transferred = after(start, transfers)->0;
    lemma_closing(transferred, Token::Erc20, replies.erc20);
    law_replies_compose(start, transfers, replies.erc20.closing_events());
}

/// The run phase: a thousand transfers and a thousand mints are sent with a
/// nonce each, and the metrics of both tokens are reported, each under the
/// token's name. Nothing else changes.
pub proof fn law_run_phase(state: ShooterState, replies: RunReplies)
    requires
        state.environment is Some,
        state.nonce.value() < prime(),
        replies.complete(),
    ensures
        after(run_start(state), replies.events()) == Some(
            ShooterState {
                nonce: advanced(state.nonce, 2000),
                transactions: Seq::empty(),
                counts: replies.erc721.window(),
                report: replies.filed_in(state.report),
                stage: Stage::TearDown,
                ..state
            },
        ),
{
    let start = run_start(state);
    let mints = mint_events(replies.token_ids, replies.erc721.transactions);
    lemma_erc20_run(state, replies);
    let between = after(start, replies.erc20_events())->0;
    lemma_advanced_twice(state.nonce, 1000, 1000);
    law_mints(between, replies.token_ids, replies.erc721.transactions);
    law_replies_compose(start, replies.erc20_events(), mints);
    let minted = after(between, mints)->0;
    lemma_closing(minted, Token::Erc721, replies.erc721);
    law_replies_compose(start, replies.erc20_events() + mints, replies.erc721.closing_events());
}

/// The transactions of a run phase carry consecutive nonces in the order in which
/// they are sent: transfer `i` the first nonce plus `i`, mint `i` the first nonce
/// plus 1000 and `i`.
pub proof fn law_run_nonces(state: ShooterState, replies: RunReplies, i: nat)
    requires
        state.environment is Some,
        state.nonce.value() < prime(),
        replies.complete(),
        i < 1000,
    ensures
        ({
            let transfers = sent_events(replies.erc20.transactions.take(i as int));
            let mints = replies.erc20_events() + mint_events(
                replies.token_ids.take(i as int),
                replies.erc721.transactions.take(i as int),
            ).push(Event::Random(replies.token_ids[i as int]));
            &&& after(run_start(state), transfers) matches Some(s) && s.pending() == Some(
                ActionView::Invoke(
                    InvocationView {
                        nonce: advanced(state.nonce, i),
                        ..state.transfer(state.environment->0.erc20_address)
                    },
                ),
            )
            &&& after(run_start(state), mints) matches Some(s) && s.pending() == Some(
                ActionView::Invoke(
                    InvocationView {
                        nonce: advanced(state.nonce, 1000 + i),
                        ..state.mint(
                            replies.token_ids[i as int],
                            state.environment->0.erc721_address,
                        )
                    },
                ),
            )
        }),
{
    let start = run_start(state);
    law_transfers(start, replies.erc20.transactions.take(i as int));
    lemma_erc20_run(state, replies);
    let between = after(start, replies.erc20_events())->0;
    lemma_advanced_twice(state.nonce, 1000, i);
    let ids = replies.token_ids.take(i as int);
    let sent = replies.erc721.transactions.take(i as int);
    law_mints(between, ids, sent);
    law_replies_compose(
        start,
        replies.erc20_events(),
        mint_events(ids, sent).push(Event::Random(replies.token_ids[i as int])),
    );
}

/// After a second run phase the report holds the metrics of the second alone,
/// under the same names.
pub proof fn law_second_run(state: ShooterState, first: RunReplies, second: RunReplies)
    requires
        state.environment is Some,
        state.nonce.value() < prime(),
        first.complete(),
        second.complete(),
    ensures
        ({
            let once = after(run_start(state), first.events());
            let twice = after(run_start(once->0), second.events());
            &&& once is Some
            &&& twice is Some
            &&& twice->0.report == second.filed_in(state.report)
            &&& twice->0.report.reports.dom() == once->0.report.reports.dom()
            &&& twice->0.nonce == advanced(state.nonce, 4000)
        }),
{
    law_run_phase(state, first);
    let once = after(run_start(state), first.events())->0;
    lemma_advanced_twice(state.nonce, 2000, 2000);
    law_run_phase(once, second);
    reveal_strlit("erc20");
    reveal_strlit("erc721");
    assert("erc20"@.len() != "erc721"@.len());
    assert(second.filed_in(first.filed_in(state.report)).reports =~= second.filed_in(
        state.report,
    ).reports);
    assert(second.filed_in(state.report).reports.dom() =~= first.filed_in(
        state.report,
    ).reports.dom());
}

/// The replies to the declaration of a class.
pub struct ClassReplies {
    pub artifact: Vec<u8>,
    pub reply: DeclareReply,
}

impl ClassReplies {
    pub open spec fn declared(self) -> bool {
        class_hash_in(self.artifact@) is Ok && !(self.reply is Refused)
    }

    /// The hash under which the class is known.
    pub open spec fn class_hash(self) -> Felt {
        class_after(self.reply, class_hash_in(self.artifact@)->Ok_0)
    }

    pub open spec fn events(self) -> Seq<Event> {
        seq![Event::Artifact(self.artifact), Event::Declaration(self.reply)]
    }
}

proof fn lemma_class(state: ShooterState, class: ClassReplies)
    requires
        state.stage is ReadArtifact,
        class.declared(),
    ensures
        after(state, class.events()) == Some(state.with_class(class.class_hash())),
{
    law_declaration(state, class.artifact, class.reply);
    assert(seq![Event::Artifact(class.artifact)].push(Event::Declaration(class.reply))
        =~= class.events());
}

/// The replies to the creation of an account.
pub struct AccountReplies {
    pub salt: Felt,
    pub contract_address: Felt,
    pub deployment: Felt,
    pub transfer: Felt,
}

impl AccountReplies {
    pub open spec fn events(self) -> Seq<Event> {
        seq![
            Event::FactoryReady,
            Event::Random(self.salt),
            Event::AccountSent {
                contract_address: self.contract_address,
                transaction: self.deployment,
            },
            Event::Confirmed,
            Event::Sent { transaction: self.transfer },
        ]
    }
}

pub open spec fn account_events(accounts: Seq<AccountReplies>) -> Seq<Event>
    decreases accounts.len(),
{
    if accounts.len() == 0 {
        Seq::empty()
    } else {
        account_events(accounts.drop_last()) + accounts.last().events()
    }
}

pub open spec fn addresses(accounts: Seq<AccountReplies>) -> Seq<Felt> {
    accounts.map_values(|account: AccountReplies| account.contract_address)
}

/// The accounts are created in order, each with a transfer of its own nonce.
#[verifier::rlimit(30)]
pub proof fn law_account_creations(state: ShooterState, accounts: Seq<AccountReplies>)
    requires
        state == state.next_account(),
        state.nonce.value() < prime(),
        state.accounts.len() + accounts.len() <= state.num_accounts(),
    ensures
        after(state, account_events(accounts)) == Some(
            ShooterState {
                accounts: state.accounts + addresses(accounts),
                nonce: advanced(state.nonce, accounts.len()),
                ..state
            }.next_account(),
        ),
    decreases accounts.len(),
{
    lemma_advanced(state.nonce, 0);
    if accounts.len() == 0 {
        assert(state.accounts + addresses(accounts) =~= state.accounts);
    } else {
        let front = accounts.drop_last();
        let last = accounts.last();
        law_account_creations(state, front);
        let reached = after(state, account_events(front))->0;
        law_account_creation(
            reached,
            last.salt,
            last.contract_address,
            last.deployment,
            last.transfer,
        );
        assert(last.events() =~= seq![Event::FactoryReady, Event::Random(last.salt)].push(
            Event::AccountSent {
                contract_address: last.contract_address,
                transaction: last.deployment,
            },
        ).push(Event::Confirmed).push(Event::Sent { transaction: last.transfer }));
        law_replies_compose(state, account_events(front), last.events());
        lemma_advanced(state.nonce, front.len());
        assert((state.accounts + addresses(front)).push(last.contract_address) =~= state.accounts
            + addresses(accounts));
    }
}

/// Replies to the creation of accounts can be taken in two parts.
pub proof fn law_account_replies_split(first: Seq<AccountReplies>, second: Seq<AccountReplies>)
    ensures
        account_events(first + second) == account_events(first) + account_events(second),
        addresses(first + second) == addresses(first) + addresses(second),
    decreases second.len(),
{
    assert(addresses(first + second) =~= addresses(first) + addresses(second));
    if second.len() == 0 {
        assert(first + second =~= first);
        assert(account_events(first) + account_events(second) =~= account_events(first));
    } else {
        law_account_replies_split(first, second.drop_last());
        assert((first + second).drop_last() =~= first + second.drop_last());
        assert(account_events(first) + account_events(second.drop_last()) + second.last().events()
            =~= account_events(first) + account_events(second));
    }
}

/// The state in which the creation of `num_accounts` accounts starts.
pub open spec fn accounts_start(state: ShooterState, num_accounts: u32) -> ShooterState {
    let simulation = state.config.simulation;
    let config = GatlingConfig {
        simulation: SimulationConfig {
            setup: SetupConfig { num_accounts, ..simulation.setup },
            ..simulation
        },
        ..state.config
    };
    ShooterState { config, accounts: Seq::empty(), ..state }.next_account()
}

/// Accounts created in two parts are those created at once, at the same nonces.
/// The report is left alone.
pub proof fn law_accounts_in_two_parts(
    state: ShooterState,
    first: Seq<AccountReplies>,
    second: Seq<AccountReplies>,
)
    requires
        state.nonce.value() < prime(),
        first.len() + second.len() <= u32::MAX,
    ensures
        ({
            let a = after(accounts_start(state, first.len() as u32), account_events(first));
            let b = after(accounts_start(a->0, second.len() as u32), account_events(second));
            let both = after(
                accounts_start(state, (first.len() + second.len()) as u32),
                account_events(first + second),
            );
            &&& a is Some && b is Some && both is Some
            &&& a->0.accounts == addresses(first)
            &&& b->0.accounts == addresses(second)
            &&& both->0.accounts == a->0.accounts + b->0.accounts
            &&& both->0.nonce == b->0.nonce
            &&& b->0.report == state.report
            &&& both->0.report == state.report
        }),
{
    let s = accounts_start(state, first.len() as u32);
    law_account_creations(s, first);
    let a = after(s, account_events(first))->0;
    assert(a.accounts =~= addresses(first));
    lemma_advanced_twice(state.nonce, first.len(), second.len());
    let t = accounts_start(a, second.len() as u32);
    law_account_creations(t, second);
    let b = after(t, account_events(second))->0;
    assert(b.accounts =~= addresses(second));
    let u = accounts_start(state, (first.len() + second.len()) as u32);
    law_account_creations(u, first + second);
    law_account_replies_split(first, second);
    let both = after(u, account_events(first + second))->0;
    assert(both.accounts =~= addresses(first) + addresses(second));
}

/// The replies to the deployment of a token contract.
pub struct ContractReplies {
    pub salt: Felt,
    pub transaction: Felt,
}

impl ContractReplies {
    pub open spec fn events(self) -> Seq<Event> {
        seq![
            Event::Random(self.salt),
            Event::Sent { transaction: self.transaction },
            Event::Confirmed,
        ]
    }
}

proof fn lemma_contract(state: ShooterState, contract: ContractReplies)
    requires
        state.stage is ContractSalt,
    ensures
        after(state, contract.events()) == Some(
            state.bumped().with_contract(
                plain_address(contract.salt, state.classes[1], token_args(state.deployer.address)),
            ),
        ),
{
    law_contract_deployment(state, contract.salt, contract.transaction);
    assert(contract.events() =~= seq![Event::Random(contract.salt)].push(
        Event::Sent { transaction: contract.transaction },
    ).push(Event::Confirmed));
}

/// The replies to the setup phase.
pub struct SetupReplies {
    pub chain_id: Felt,
    pub number: u64,
    pub announced: bool,
    pub erc20_class: ClassReplies,
    pub erc721_class: ClassReplies,
    pub account_class: ClassReplies,
    pub accounts: Seq<AccountReplies>,
    pub erc20: ContractReplies,
    pub erc721: ContractReplies,
}

impl SetupReplies {
    /// The chain id can be shown where it is, the classes are declared, and there
    /// are as many accounts as asked for.
    pub open spec fn complete(self, num_accounts: nat) -> bool {
        &&& self.announced ==> chain_text(self.chain_id) is Ok
        &&& self.erc20_class.declared()
        &&& self.erc721_class.declared()
        &&& self.account_class.declared()
        &&& self.accounts.len() == num_accounts
    }

    pub open spec fn start_events(self) -> Seq<Event> {
        seq![
            Event::ChainId(self.chain_id),
            Event::BlockNumber { number: self.number, announced: self.announced },
        ]
    }

    pub open spec fn events(self) -> Seq<Event> {
        self.start_events() + self.erc20_class.events() + self.erc721_class.events()
            + self.account_class.events() + account_events(self.accounts) + self.erc20.events()
            + self.erc721.events()
    }

    /// The environment that the setup phase leaves behind. Both token contracts
    /// are of the ERC721 class.
    pub open spec fn environment(self, owner: Felt) -> EnvironmentView {
        let class = self.erc721_class.class_hash();
        EnvironmentView {
            erc20_class_hash: self.erc20_class.class_hash(),
            erc721_class_hash: class,
            account_class_hash: self.account_class.class_hash(),
            erc20_address: plain_address(self.erc20.salt, class, token_args(owner)),
            erc721_address: plain_address(self.erc721.salt, class, token_args(owner)),
            accounts: addresses(self.accounts),
        }
    }
}

/// The state in which a setup phase starts: nothing is declared, created or
/// deployed yet.
pub open spec fn setup_start(state: ShooterState) -> ShooterState {
    ShooterState {
        classes: Seq::empty(),
        accounts: Seq::empty(),
        contracts: Seq::empty(),
        transactions: Seq::empty(),
        stage: Stage::ChainId,
        ..state
    }
}

/// The setup phase: whatever environment there was before, the replies lead to
/// one that is made of them, with one transaction sent per account and one per
/// token contract. The report is left alone.
pub proof fn law_setup_phase(state: ShooterState, replies: SetupReplies)
    requires
        state.nonce.value() < prime(),
        replies.complete(state.num_accounts()),
    ensures
        ({
            let end = after(setup_start(state), replies.events());
            let environment = replies.environment(state.deployer.address);
            &&& end is Some
            &&& end->0.stage is Transfer
            &&& end->0.environment == Some(environment)
            &&& environment.accounts.len() == state.num_accounts()
            &&& end->0.nonce == advanced(state.nonce, replies.accounts.len() + 2)
            &&& end->0.transactions.len() == 0
            &&& end->0.config == state.config
            &&& end->0.deployer == state.deployer
            &&& end->0.report == state.report
        }),
{
    let start = setup_start(state);
    let opening = replies.start_events();
    let chain = Event::ChainId(replies.chain_id);
    let block = Event::BlockNumber { number: replies.number, announced: replies.announced };
    assert(opening =~= Seq::empty().push(chain).push(block));
    lemma_one_more(start, Seq::empty(), chain);
    lemma_one_more(start, Seq::empty().push(chain), block);
    let s0 = after(start, opening)->0;
    lemma_class(s0, replies.erc20_class);
    law_replies_compose(start, opening, replies.erc20_class.events());
    let s1 = s0.with_class(replies.erc20_class.class_hash());
    let e1 = opening + replies.erc20_class.events();
    lemma_class(s1, replies.erc721_class);
    law_replies_compose(start, e1, replies.erc721_class.events());
    let s2 = s1.with_class(replies.erc721_class.class_hash());
    let e2 = e1 + replies.erc721_class.events();
    lemma_class(s2, replies.account_class);
    law_replies_compose(start, e2, replies.account_class.events());
    let s3 = s2.with_class(replies.account_class.class_hash());
    let e3 = e2 + replies.account_class.events();
    assert(s3 == s3.next_account());
    law_account_creations(s3, replies.accounts);
    assert(s3.accounts + addresses(replies.accounts) =~= addresses(replies.accounts));
    law_replies_compose(start, e3, account_events(replies.accounts));
    let s4 = after(s3, account_events(replies.accounts))->0;
    let e4 = e3 + account_events(replies.accounts);
    lemma_contract(s4, replies.erc20);
    law_replies_compose(start, e4, replies.erc20.events());
    let s5 = after(s4, replies.erc20.events())->0;
    let e5 = e4 + replies.erc20.events();
    lemma_contract(s5, replies.erc721);
    law_replies_compose(start, e5, replies.erc721.events());
    lemma_advanced(state.nonce, replies.accounts.len());
    lemma_advanced(state.nonce, replies.accounts.len() + 1);
}

/// A second setup phase replaces the environment of the first: it holds the
/// accounts of the second alone, while the nonce has counted both.
pub proof fn law_second_setup(state: ShooterState, first: SetupReplies, second: SetupReplies)
    requires
        state.nonce.value() < prime(),
        first.complete(state.num_accounts()),
        second.complete(state.num_accounts()),
    ensures
        ({
            let once = after(setup_start(state), first.events());
            let twice = after(setup_start(once->0), second.events());
            &&& once is Some
            &&& twice is Some
            &&& twice->0.environment == Some(second.environment(state.deployer.address))
            &&& twice->0.environment->0.accounts == addresses(second.accounts)
            &&& twice->0.environment->0.accounts.len() == state.num_accounts()
            &&& twice->0.nonce == advanced(state.nonce, 2 * (state.num_accounts() + 2))
        }),
{
    law_setup_phase(state, first);
    let once = after(setup_start(state), first.events())->0;
    lemma_advanced_twice(state.nonce, first.accounts.len() + 2, second.accounts.len() + 2);
    law_setup_phase(once, second);
}

/// A complete simulation: what comes of it is an environment made of the replies
/// to the setup phase, and a report that holds the metrics of both tokens and
/// nothing else. One transaction is sent per account, and 2002 more.
pub proof fn law_complete_simulation(
    config: GatlingConfig,
    deployer: Deployer,
    nonce: Felt,
    setup: SetupReplies,
    run: RunReplies,
)
    requires
        nonce.value() < prime(),
        setup.complete(config.simulation.setup.num_accounts as nat),
        run.complete(),
    ensures
        ({
            let end = after(
                initial(config, deployer, nonce),
                setup.events() + run.events() + seq![Event::TornDown],
            );
            &&& end is Some
            &&& end->0.stage is Finished
            &&& end->0.environment == Some(setup.environment(deployer.address))
            &&& end->0.nonce == advanced(nonce, setup.accounts.len() + 2002)
            &&& end->0.report == (ReportView {
                chain_id: None,
                block_number: None,
                reports: map![
                    "erc20"@ => texts(last_of_each(run.erc20.metrics@)),
                    "erc721"@ => texts(last_of_each(run.erc721.metrics@)),
                ],
            })
        }),
{
    let start = initial(config, deployer, nonce);
    assert(start =~= setup_start(start));
    law_setup_phase(start, setup);
    let ready = after(start, setup.events())->0;
    assert(ready =~= run_start(ready));
    lemma_advanced_twice(nonce, setup.accounts.len() + 2, 2000);
    law_run_phase(ready, run);
    law_replies_compose(start, setup.events(), run.events());
    lemma_one_more(start, setup.events() + run.events(), Event::TornDown);
    assert((setup.events() + run.events()).push(Event::TornDown) =~= setup.events() + run.events()
        + seq![Event::TornDown]);
}

} // verus!
