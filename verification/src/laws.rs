//! What holds of every simulation.
use crate::config::GatlingConfig;
use crate::connection::Deployer;
use crate::environment::EnvironmentView;
use crate::error::ErrorView;
use crate::felt::{prime, Felt};
use crate::requests::{plain_address, token_args, InvocationView};
use crate::simulation::{
    block_window, class_hash_in, initial, ActionView, BlockTag, DeclareReply, Event, ShooterState, Stage, Token,
    NUM_BLOCKS, NUM_ERC20_TRANSFERS, NUM_ERC721_MINTS,
};
use vstd::prelude::*;

verus! {

/// Every state that an accepted reply leads to is one that a simulation can be
/// in.
pub proof fn law_step_keeps_wf(state: ShooterState, event: Event)
    requires
        state.wf(),
        state.accepts(event),
        state.step(event) is Ok,
    ensures
        state.step(event)->Ok_0.wf(),
{
    let next = state.step(event)->Ok_0;
    reveal_strlit("erc20");
    reveal_strlit("erc721");
    assert("erc20"@.len() != "erc721"@.len());
    assert(next.report.reports.dom() =~= next.reported());
}

/// The state after a series of replies, each of them accepted and none of them a
/// failure.
pub open spec fn after(state: ShooterState, events: Seq<Event>) -> Option<ShooterState>
    decreases events.len(),
{
    if events.len() == 0 {
        Some(state)
    } else {
        match after(state, events.drop_last()) {
            None => None,
            Some(reached) => if reached.accepts(events.last()) && reached.step(events.last()) is Ok {
                Some(reached.step(events.last())->Ok_0)
            } else {
                None
            },
        }
    }
}

/// Every state that a simulation reaches is one that a simulation can be in, of
/// the same configuration and deployer.
pub proof fn law_reached_states_fit(
    config: GatlingConfig,
    deployer: Deployer,
    nonce: Felt,
    events: Seq<Event>,
)
    requires
        after(initial(config, deployer, nonce), events) is Some,
    ensures
        after(initial(config, deployer, nonce), events)->0.wf(),
        after(initial(config, deployer, nonce), events)->0.config == config,
        after(initial(config, deployer, nonce), events)->0.deployer == deployer,
    decreases events.len(),
{
    let start = initial(config, deployer, nonce);
    if events.len() == 0 {
        assert(start.report.reports.dom() =~= start.reported());
    } else {
        law_reached_states_fit(config, deployer, nonce, events.drop_last());
        let reached = after(start, events.drop_last())->0;
        law_step_keeps_wf(reached, events.last());
    }
}

/// How many of the replies say that a transaction of the deployer was sent.
pub open spec fn sent_in(events: Seq<Event>) -> nat
    decreases events.len(),
{
    if events.len() == 0 {
        0
    } else {
        sent_in(events.drop_last()) + if events.last() is Sent {
            1nat
        } else {
            0nat
        }
    }
}

/// The nonce counts the transactions sent: after `k` of them it is the first
/// nonce plus `k`, in the field.
pub proof fn law_nonce_counts_transactions(state: ShooterState, events: Seq<Event>)
    requires
        state.nonce.value() < prime(),
        after(state, events) is Some,
    ensures
        after(state, events)->0.nonce.value() == (state.nonce.value() + sent_in(events)) % prime(),
    decreases events.len(),
{
    broadcast use Felt::lemma_value_of;

    if events.len() > 0 {
        law_nonce_counts_transactions(state, events.drop_last());
        let reached = after(state, events.drop_last())->0;
        let before = state.nonce.value() + sent_in(events.drop_last());
        assert((before % prime() + 1) % prime() == (before + 1) % prime());
        assert(Felt::of(1).value() == 1);
    }
}

/// Every transaction of the deployer is sent with the nonce of the state, and
/// its sending alone moves the nonce, by one.
pub proof fn law_one_nonce_per_transaction(state: ShooterState, event: Event)
    requires
        state.accepts(event),
    ensures
        state.pending() matches Some(ActionView::Invoke(invocation)) ==> invocation.nonce
            == state.nonce,
        state.pending() matches Some(ActionView::Deploy(deployment)) ==> deployment.nonce
            == state.nonce,
        event is Sent && state.step(event) is Ok ==> state.pending() is Some && (
        state.pending()->0 is Invoke
            || state.pending()->0 is Deploy),
        state.step(event) matches Ok(next) ==> next.nonce == if event is Sent {
            state.nonce.plus(Felt::of(1))
        } else {
            state.nonce
        },
{
}

/// How many transactions of the deployer a simulation has sent at this stage.
pub open spec fn sent_by(state: ShooterState) -> nat {
    let all_accounts = state.num_accounts();
    let all_transfers = NUM_ERC20_TRANSFERS as nat;
    match state.stage {
        Stage::AwaitAccount { .. } | Stage::FundAccount { .. } => (state.accounts.len()
            - 1) as nat,
        Stage::ContractSalt | Stage::DeployContract { .. } => all_accounts + state.contracts.len(),
        Stage::AwaitContract { .. } => all_accounts + state.contracts.len() + 1,
        Stage::TearDown | Stage::Finished => all_accounts + 2 + all_transfers
            + NUM_ERC721_MINTS as nat,
        _ => if state.in_setup() {
            state.accounts.len()
        } else if state.fires_at(Token::Erc20) {
            all_accounts + 2 + state.transactions.len()
        } else {
            all_accounts + 2 + all_transfers + state.transactions.len()
        },
    }
}

proof fn lemma_step_counts_transactions(state: ShooterState, event: Event)
    requires
        state.wf(),
        state.accepts(event),
        state.step(event) is Ok,
    ensures
        sent_by(state.step(event)->Ok_0) == sent_by(state) + if event is Sent {
            1nat
        } else {
            0nat
        },
{
}

/// The stage determines how many transactions were sent: one per account, one
/// per token contract and the transfers and mints. A complete simulation sends
/// one per account and 2002 more.
pub proof fn law_transactions_sent(
    config: GatlingConfig,
    deployer: Deployer,
    nonce: Felt,
    events: Seq<Event>,
)
    requires
        after(initial(config, deployer, nonce), events) is Some,
    ensures
        sent_in(events) == sent_by(after(initial(config, deployer, nonce), events)->0),
        after(initial(config, deployer, nonce), events)->0.stage is Finished ==> sent_in(events)
            == config.simulation.setup.num_accounts + 2002,
    decreases events.len(),
{
    let start = initial(config, deployer, nonce);
    law_reached_states_fit(config, deployer, nonce, events);
    if events.len() > 0 {
        law_transactions_sent(config, deployer, nonce, events.drop_last());
        law_reached_states_fit(config, deployer, nonce, events.drop_last());
        lemma_step_counts_transactions(after(start, events.drop_last())->0, events.last());
    }
}

/// How many replies a simulation still waits for.
pub open spec fn remaining(state: ShooterState) -> int {
    let blocks = NUM_BLOCKS as int + 2;
    let mints = 3 * NUM_ERC721_MINTS as int + blocks + 1;
    let transfers = 2 * NUM_ERC20_TRANSFERS as int + blocks + mints;
    let contracts = transfers + 3 * (2 - state.contracts.len());
    let accounts = transfers + 6 + 5 * (state.num_accounts() - state.accounts.len());
    let classes = accounts + 2 * (3 - state.classes.len());
    match state.stage {
        Stage::ChainId => classes + 2,
        Stage::BlockNumber { .. } => classes + 1,
        Stage::ReadArtifact => classes,
        Stage::Declare { .. } => classes - 1,
        Stage::PrepareAccount => accounts,
        Stage::AccountSalt => accounts - 1,
        Stage::DeployAccount { .. } => accounts - 2,
        Stage::AwaitAccount { .. } => accounts + 2,
        Stage::FundAccount { .. } => accounts + 1,
        Stage::ContractSalt => contracts,
        Stage::DeployContract { .. } => contracts - 1,
        Stage::AwaitContract { .. } => contracts - 2,
        Stage::Transfer => transfers - state.transactions.len(),
        Stage::TokenId => mints - 2 * state.transactions.len(),
        Stage::Mint { .. } => mints - 2 * state.transactions.len() - 1,
        Stage::Check { token, checked } => after_token(token) + blocks + token.volume() - checked,
        Stage::LatestBlock { token, num_blocks } => after_token(token) + num_blocks + 2,
        Stage::CountBlock { token, block, latest } => after_token(token) + latest - block + 2,
        Stage::Metrics { token, .. } => after_token(token) + 1,
        Stage::TearDown => 1,
        Stage::Finished => 0,
    }
}

/// How many replies a simulation waits for once it is done with `token`.
pub open spec fn after_token(token: Token) -> int {
    match token {
        Token::Erc20 => 3 * NUM_ERC721_MINTS as int + NUM_BLOCKS as int + 3,
        Token::Erc721 => 1,
    }
}

/// Every successful reply brings the end one reply nearer.
pub proof fn law_step_makes_progress(state: ShooterState, event: Event)
    requires
        state.wf(),
        state.accepts(event),
        state.step(event) is Ok,
    ensures
        remaining(state) > 0,
        remaining(state.step(event)->Ok_0) == remaining(state) - 1,
{
}

/// A simulation is over after five replies per account and 5027 more, and not
/// before.
pub proof fn law_length_of_a_simulation(
    config: GatlingConfig,
    deployer: Deployer,
    nonce: Felt,
    events: Seq<Event>,
)
    requires
        after(initial(config, deployer, nonce), events) is Some,
    ensures
        events.len() + remaining(after(initial(config, deployer, nonce), events)->0) == 5
            * config.simulation.setup.num_accounts + 5027,
        after(initial(config, deployer, nonce), events)->0.stage is Finished <==> events.len() == 5
            * config.simulation.setup.num_accounts + 5027,
    decreases events.len(),
{
    law_reached_states_fit(config, deployer, nonce, events);
    if events.len() > 0 {
        law_length_of_a_simulation(config, deployer, nonce, events.drop_last());
        law_reached_states_fit(config, deployer, nonce, events.drop_last());
        let reached = after(initial(config, deployer, nonce), events.drop_last())->0;
        law_step_makes_progress(reached, events.last());
    }
}

/// A simulation never gets stuck: every state but the last waits for a reply
/// that it accepts and that is not a failure. The last accepts none.
pub proof fn law_unfinished_simulations_wait(state: ShooterState)
    requires
        state.wf(),
    ensures
        state.stage is Finished <==> state.pending() is None,
        !(state.stage is Finished) ==> exists|event: Event|
            !(event is Failed) && #[trigger] state.accepts(event),
        state.stage is Finished ==> forall|event: Event| !#[trigger] state.accepts(event),
{
    let felt = state.nonce;
    let reply = match state.stage {
        Stage::ChainId => Event::ChainId(felt),
        Stage::BlockNumber { .. } => Event::BlockNumber { number: 0, announced: false },
        Stage::ReadArtifact => Event::Artifact(arbitrary()),
        Stage::Declare { .. } => Event::Declaration(DeclareReply::ClassAlreadyDeclared),
        Stage::PrepareAccount => Event::FactoryReady,
        Stage::AccountSalt => Event::Random(felt),
        Stage::DeployAccount { .. } => Event::AccountSent {
            contract_address: felt,
            transaction: felt,
        },
        Stage::AwaitAccount { .. } => Event::Confirmed,
        Stage::FundAccount { .. } => Event::Sent { transaction: felt },
        Stage::ContractSalt => Event::Random(felt),
        Stage::DeployContract { .. } => Event::Sent { transaction: felt },
        Stage::AwaitContract { .. } => Event::Confirmed,
        Stage::Transfer => Event::Sent { transaction: felt },
        Stage::TokenId => Event::Random(felt),
        Stage::Mint { .. } => Event::Sent { transaction: felt },
        Stage::Check { .. } => Event::Confirmed,
        Stage::LatestBlock { .. } => Event::BlockNumber { number: NUM_BLOCKS, announced: false },
        Stage::CountBlock { .. } => Event::TransactionCount(0),
        Stage::Metrics { .. } => Event::Metrics(arbitrary()),
        Stage::TearDown => Event::TornDown,
        Stage::Finished => Event::TornDown,
    };
    assert(!(state.stage is Finished) ==> state.accepts(reply));
}

/// The environment is populated by the setup phase and by nothing else, from
/// the classes, contracts and accounts that the phase has put on the chain; it
/// then holds as many accounts as were configured.
pub proof fn law_environment_after_setup(
    config: GatlingConfig,
    deployer: Deployer,
    nonce: Felt,
    events: Seq<Event>,
)
    requires
        after(initial(config, deployer, nonce), events) is Some,
    ensures
        ({
            let state = after(initial(config, deployer, nonce), events)->0;
            &&& state.environment is None <==> state.in_setup()
            &&& state.environment matches Some(environment) ==> {
                &&& environment.erc20_class_hash == state.classes[0]
                &&& environment.erc721_class_hash == state.classes[1]
                &&& environment.account_class_hash == state.classes[2]
                &&& environment.erc20_address == state.contracts[0]
                &&& environment.erc721_address == state.contracts[1]
                &&& environment.accounts == state.accounts
                &&& environment.accounts.len() == config.simulation.setup.num_accounts
            }
        }),
{
    law_reached_states_fit(config, deployer, nonce, events);
}

/// Once populated, the environment stays as it is.
pub proof fn law_environment_stays(state: ShooterState, events: Seq<Event>)
    requires
        state.wf(),
        state.environment is Some,
        after(state, events) is Some,
    ensures
        after(state, events)->0.environment == state.environment,
        after(state, events)->0.wf(),
    decreases events.len(),
{
    if events.len() > 0 {
        law_environment_stays(state, events.drop_last());
        law_step_keeps_wf(after(state, events.drop_last())->0, events.last());
    }
}

/// A complete simulation reports on both tokens and on nothing else. It leaves
/// the chain id and the block number of the report open.
pub proof fn law_final_report(
    config: GatlingConfig,
    deployer: Deployer,
    nonce: Felt,
    events: Seq<Event>,
)
    requires
        after(initial(config, deployer, nonce), events) is Some,
    ensures
        ({
            let state = after(initial(config, deployer, nonce), events)->0;
            &&& state.stage is TearDown || state.stage is Finished ==> state.report.reports.dom()
                == set!["erc20"@, "erc721"@]
            &&& state.report.chain_id is None
            &&& state.report.block_number is None
        }),
    decreases events.len(),
{
    law_reached_states_fit(config, deployer, nonce, events);
    if events.len() > 0 {
        law_final_report(config, deployer, nonce, events.drop_last());
    }
}

/// The accounts that the node says were deployed, in order.
pub open spec fn accounts_in(events: Seq<Event>) -> Seq<Felt>
    decreases events.len(),
{
    if events.len() == 0 {
        Seq::empty()
    } else {
        let before = accounts_in(events.drop_last());
        match events.last() {
            Event::AccountSent { contract_address, .. } => before.push(contract_address),
            _ => before,
        }
    }
}

/// The accounts of a simulation are those that the node says were deployed, in
/// the order of their deployment.
pub proof fn law_accounts_in_order(
    config: GatlingConfig,
    deployer: Deployer,
    nonce: Felt,
    events: Seq<Event>,
)
    requires
        after(initial(config, deployer, nonce), events) is Some,
    ensures
        after(initial(config, deployer, nonce), events)->0.accounts == accounts_in(events),
    decreases events.len(),
{
    if events.len() > 0 {
        law_accounts_in_order(config, deployer, nonce, events.drop_last());
    }
}

/// One more reply.
pub(crate) proof fn lemma_one_more(state: ShooterState, events: Seq<Event>, event: Event)
    ensures
        after(state, events.push(event)) == match after(state, events) {
            None => None,
            Some(reached) => if reached.accepts(event) && reached.step(event) is Ok {
                Some(reached.step(event)->Ok_0)
            } else {
                None
            },
        },
{
    assert(events.push(event).drop_last() =~= events);
}

/// A class is declared under the hash that the node gives it, or, where the node
/// has the class already, under the hash of its artifact.
pub proof fn law_declaration(state: ShooterState, artifact: Vec<u8>, reply: DeclareReply)
    requires
        state.stage is ReadArtifact,
        class_hash_in(artifact@) is Ok,
        !(reply is Refused),
    ensures
        ({
            let read = seq![Event::Artifact(artifact)];
            let hash = class_hash_in(artifact@)->Ok_0;
            &&& after(state, read) matches Some(s) && s.pending() == Some(
                ActionView::Declare { class_hash: hash, block: BlockTag::Pending },
            )
            &&& after(state, read.push(Event::Declaration(reply))) == Some(
                state.with_class(
                    match reply {
                        DeclareReply::Declared(given) => given,
                        _ => hash,
                    },
                ),
            )
        }),
{
    let read = seq![Event::Artifact(artifact)];
    assert(read =~= Seq::empty().push(Event::Artifact(artifact)));
    lemma_one_more(state, Seq::empty(), Event::Artifact(artifact));
    lemma_one_more(state, read, Event::Declaration(reply));
}

/// An account is created by deploying it with the salt drawn, waiting for that
/// transaction and transferring to the address that this salt, the class and
/// the deployer's public key give.
#[verifier::rlimit(30)]
pub proof fn law_account_creation(
    state: ShooterState,
    salt: Felt,
    contract_address: Felt,
    deployment: Felt,
    transfer: Felt,
)
    requires
        state.stage is PrepareAccount,
    ensures
        ({
            let ready = seq![Event::FactoryReady, Event::Random(salt)];
            let sent = ready.push(Event::AccountSent { contract_address, transaction: deployment });
            let confirmed = sent.push(Event::Confirmed);
            let funded = confirmed.push(Event::Sent { transaction: transfer });
            &&& after(state, ready) matches Some(s) && s.pending() == Some(
                ActionView::DeployAccount { salt },
            )
            &&& after(state, sent) matches Some(s) && s.pending() == Some(
                ActionView::AwaitTransaction { transaction: deployment },
            )
            &&& after(state, confirmed) matches Some(s) && s.pending() == Some(
                ActionView::Invoke(state.transfer(state.account_address(salt))),
            )
            &&& after(state, funded) == Some(
                ShooterState {
                    accounts: state.accounts.push(contract_address),
                    ..state.bumped()
                }.next_account(),
            )
        }),
{
    let made = Event::FactoryReady;
    let ready = seq![made, Event::Random(salt)];
    let sent = ready.push(Event::AccountSent { contract_address, transaction: deployment });
    let confirmed = sent.push(Event::Confirmed);
    assert(ready =~= Seq::empty().push(made).push(Event::Random(salt)));
    lemma_one_more(state, Seq::empty(), made);
    lemma_one_more(state, Seq::empty().push(made), Event::Random(salt));
    lemma_one_more(state, ready, Event::AccountSent { contract_address, transaction: deployment });
    lemma_one_more(state, sent, Event::Confirmed);
    lemma_one_more(state, confirmed, Event::Sent { transaction: transfer });
}

/// A token contract is deployed with the salt drawn, and lands at the address
/// that this salt, the class and the constructor arguments give.
pub proof fn law_contract_deployment(state: ShooterState, salt: Felt, transaction: Felt)
    requires
        state.stage is ContractSalt,
    ensures
        ({
            let drawn = seq![Event::Random(salt)];
            let sent = drawn.push(Event::Sent { transaction });
            let confirmed = sent.push(Event::Confirmed);
            &&& after(state, drawn) matches Some(s) && s.pending() == Some(
                ActionView::Deploy(state.deploy(salt)),
            )
            &&& after(state, sent) matches Some(s) && s.pending() == Some(
                ActionView::AwaitTransaction { transaction },
            )
            &&& after(state, confirmed) == Some(
                state.bumped().with_contract(
                    plain_address(salt, state.classes[1], token_args(state.deployer.address)),
                ),
            )
        }),
{
    let drawn = seq![Event::Random(salt)];
    let sent = drawn.push(Event::Sent { transaction });
    assert(drawn =~= Seq::empty().push(Event::Random(salt)));
    lemma_one_more(state, Seq::empty(), Event::Random(salt));
    lemma_one_more(state, drawn, Event::Sent { transaction });
    lemma_one_more(state, sent, Event::Confirmed);
}

/// The nonce `k` transactions after `nonce`.
pub open spec fn advanced(nonce: Felt, k: nat) -> Felt {
    Felt::of((nonce.value() + k) % prime())
}

pub(crate) proof fn lemma_advanced(nonce: Felt, k: nat)
    requires
        nonce.value() < prime(),
    ensures
        advanced(nonce, 0) == nonce,
        advanced(nonce, k).plus(Felt::of(1)) == advanced(nonce, k + 1),
{
    broadcast use {Felt::lemma_value_of, Felt::lemma_of_value};

    let sum = nonce.value() + k;
    assert((sum % prime() + 1) % prime() == (sum + 1) % prime());
    assert(Felt::of(1).value() == 1);
}

/// The replies that say that these transactions were sent.
pub open spec fn sent_events(transactions: Seq<Felt>) -> Seq<Event> {
    transactions.map_values(|transaction: Felt| Event::Sent { transaction })
}

/// Every ERC20 transfer goes to the ERC20 contract with a nonce of its own, one
/// after the other; the transactions sent are kept in order and all of them are
/// checked next.
pub proof fn law_transfers(state: ShooterState, transactions: Seq<Felt>)
    requires
        state.stage is Transfer,
        state.environment is Some,
        state.transactions.len() == 0,
        state.nonce.value() < prime(),
        transactions.len() <= NUM_ERC20_TRANSFERS,
    ensures
        after(state, sent_events(transactions)) == Some(
            ShooterState {
                transactions,
                nonce: advanced(state.nonce, transactions.len()),
                stage: if transactions.len() < NUM_ERC20_TRANSFERS {
                    Stage::Transfer
                } else {
                    Stage::Check { token: Token::Erc20, checked: 0 }
                },
                ..state
            },
        ),
        transactions.len() < NUM_ERC20_TRANSFERS ==> after(
            state,
            sent_events(transactions),
        )->0.pending() == Some(
            ActionView::Invoke(
                InvocationView {
                    nonce: advanced(state.nonce, transactions.len()),
                    ..state.transfer(state.environment->0.erc20_address)
                },
            ),
        ),
    decreases transactions.len(),
{
    lemma_advanced(state.nonce, 0);
    if transactions.len() == 0 {
        assert(transactions =~= state.transactions);
    } else {
        let front = transactions.drop_last();
        let last = transactions.last();
        law_transfers(state, front);
        lemma_advanced(state.nonce, front.len());
        assert(sent_events(transactions) =~= sent_events(front).push(
            Event::Sent { transaction: last },
        ));
        lemma_one_more(state, sent_events(front), Event::Sent { transaction: last });
        assert(front.push(last) =~= transactions);
    }
}

/// The replies that draw these token ids and say that their mints were sent.
pub open spec fn mint_events(token_ids: Seq<Felt>, transactions: Seq<Felt>) -> Seq<Event>
    recommends
        token_ids.len() == transactions.len(),
    decreases transactions.len(),
{
    if transactions.len() == 0 {
        Seq::empty()
    } else {
        mint_events(token_ids.drop_last(), transactions.drop_last()).push(
            Event::Random(token_ids.last()),
        ).push(Event::Sent { transaction: transactions.last() })
    }
}

/// Every ERC721 mint goes to the ERC721 contract, for the token id drawn for it
/// and with a nonce of its own; the transactions sent are kept in order and all
/// of them are checked next.
pub proof fn law_mints(state: ShooterState, token_ids: Seq<Felt>, transactions: Seq<Felt>)
    requires
        state.stage is TokenId,
        state.environment is Some,
        state.transactions.len() == 0,
        state.nonce.value() < prime(),
        token_ids.len() == transactions.len(),
        transactions.len() <= NUM_ERC721_MINTS,
    ensures
        after(state, mint_events(token_ids, transactions)) == Some(
            ShooterState {
                transactions,
                nonce: advanced(state.nonce, transactions.len()),
                stage: if transactions.len() < NUM_ERC721_MINTS {
                    Stage::TokenId
                } else {
                    Stage::Check { token: Token::Erc721, checked: 0 }
                },
                ..state
            },
        ),
        transactions.len() < NUM_ERC721_MINTS ==> forall|token_id: Felt|
            after(
                state,
                #[trigger] mint_events(token_ids, transactions).push(Event::Random(token_id)),
            ) matches Some(drawn) && drawn.pending() == Some(
                ActionView::Invoke(
                    InvocationView {
                        nonce: advanced(state.nonce, transactions.len()),
                        ..state.mint(token_id, state.environment->0.erc721_address)
                    },
                ),
            ),
    decreases transactions.len(),
{
    lemma_advanced(state.nonce, 0);
    let events = mint_events(token_ids, transactions);
    if transactions.len() == 0 {
        assert(transactions =~= state.transactions);
    } else {
        let front = transactions.drop_last();
        let before = mint_events(token_ids.drop_last(), front);
        law_mints(state, token_ids.drop_last(), front);
        lemma_advanced(state.nonce, front.len());
        lemma_one_more(state, before, Event::Random(token_ids.last()));
        lemma_one_more(
            state,
            before.push(Event::Random(token_ids.last())),
            Event::Sent { transaction: transactions.last() },
        );
        assert(front.push(transactions.last()) =~= transactions);
    }
    assert forall|token_id: Felt| transactions.len() < NUM_ERC721_MINTS implies after(
        state,
        #[trigger] events.push(Event::Random(token_id)),
    ) matches Some(drawn) && drawn.pending() == Some(
        ActionView::Invoke(
            InvocationView {
                nonce: advanced(state.nonce, transactions.len()),
                ..state.mint(token_id, state.environment->0.erc721_address)
            },
        ),
    ) by {
        lemma_one_more(state, events, Event::Random(token_id));
    }
}

/// All transactions sent to a token are waited for, in the order in which they
/// were sent, before its blocks are counted.
pub proof fn law_checks(state: ShooterState, token: Token, confirmed: nat)
    requires
        state.stage == (Stage::Check { token, checked: 0 }),
        state.transactions.len() == token.volume(),
        confirmed <= token.volume(),
    ensures
        after(state, Seq::new(confirmed, |i: int| Event::Confirmed)) == Some(
            state.at(
                if confirmed < token.volume() {
                    Stage::Check { token, checked: confirmed as usize }
                } else {
                    Stage::LatestBlock { token, num_blocks: NUM_BLOCKS }
                },
            ),
        ),
        confirmed < token.volume() ==> after(
            state,
            Seq::new(confirmed, |i: int| Event::Confirmed),
        )->0.pending() == Some(
            ActionView::AwaitTransaction { transaction: state.transactions[confirmed as int] },
        ),
    decreases confirmed,
{
    let events = Seq::new(confirmed, |i: int| Event::Confirmed);
    if confirmed > 0 {
        let fewer = Seq::new((confirmed - 1) as nat, |i: int| Event::Confirmed);
        law_checks(state, token, (confirmed - 1) as nat);
        assert(events =~= fewer.push(Event::Confirmed));
        lemma_one_more(state, fewer, Event::Confirmed);
    } else {
        assert(events =~= Seq::empty());
    }
}

/// Until the setup phase has populated the environment, nothing is sent to a
/// token: what a state waits for is part of the setup phase, its only calls are
/// transfers to accounts just deployed, and the environment asked for is the
/// error that says so.
pub proof fn law_nothing_fired_before_setup(state: ShooterState)
    requires
        state.wf(),
        state.environment is None,
    ensures
        state.in_setup(),
        state.populated() == Err::<EnvironmentView, ErrorView>(ErrorView::EnvironmentNotPopulated),
        state.pending() matches Some(ActionView::Invoke(invocation)) ==> (state.stage matches
            Stage::FundAccount { address } && invocation == state.transfer(address)),
{
}

/// A run phase started without an environment sends nothing and draws nothing:
/// it is answered by the error that says that the setup phase comes first.
pub proof fn law_run_needs_setup(state: ShooterState, event: Event)
    requires
        state.environment is None,
        state.stage is Transfer || state.stage is TokenId || state.stage is Mint,
        state.accepts(event),
        !(event is Failed),
    ensures
        state.pending() is None,
        state.step(event) == Err::<ShooterState, ErrorView>(ErrorView::EnvironmentNotPopulated),
        ErrorView::EnvironmentNotPopulated.text()
            == "Environment is not yet populated, you should run the setup function first"@,
{
}

/// The replies about the latest block and about the first of the last blocks.
pub open spec fn count_events(latest: u64, announced: bool, counts: Seq<u64>) -> Seq<Event> {
    seq![Event::BlockNumber { number: latest, announced }] + counts.map_values(
        |count: u64| Event::TransactionCount(count),
    )
}

/// The number of transactions in each of the last `num_blocks` blocks, as far as
/// `counts` goes.
pub open spec fn window_counts(latest: u64, num_blocks: u64, counts: Seq<u64>) -> Map<u64, u64> {
    Map::new(
        |block: u64|
            block_window(latest, num_blocks).contains(block) && block <= latest - num_blocks
                + counts.len(),
        |block: u64| counts[block - (latest - num_blocks + 1)],
    )
}

proof fn lemma_one_more_count(latest: u64, num_blocks: u64, counts: Seq<u64>)
    requires
        num_blocks <= latest + 1,
        0 < counts.len() <= num_blocks,
    ensures
        window_counts(latest, num_blocks, counts) == window_counts(
            latest,
            num_blocks,
            counts.drop_last(),
        ).insert((latest - num_blocks + counts.len()) as u64, counts.last()),
{
    assert(window_counts(latest, num_blocks, counts) =~= window_counts(
        latest,
        num_blocks,
        counts.drop_last(),
    ).insert((latest - num_blocks + counts.len()) as u64, counts.last()));
}

/// Exactly the last `num_blocks` blocks are counted, the latest one included,
/// from the first of them on, each with the number of transactions that the node
/// gives for it.
#[verifier::rlimit(30)]
pub proof fn law_block_counts(
    state: ShooterState,
    token: Token,
    num_blocks: u64,
    latest: u64,
    announced: bool,
    counts: Seq<u64>,
)
    requires
        state.stage == (Stage::LatestBlock { token, num_blocks }),
        num_blocks <= latest + 1,
        counts.len() <= num_blocks,
    ensures
        after(state, count_events(latest, announced, counts)) == Some(
            ShooterState {
                counts: window_counts(latest, num_blocks, counts),
                stage: if counts.len() < num_blocks {
                    Stage::CountBlock {
                        token,
                        block: (latest - num_blocks + 1 + counts.len()) as u64,
                        latest,
                    }
                } else {
                    Stage::Metrics { token, latest }
                },
                ..state
            },
        ),
        counts.len() < num_blocks ==> after(
            state,
            count_events(latest, announced, counts),
        )->0.pending() == Some(
            ActionView::CountTransactions {
                block: (latest - num_blocks + 1 + counts.len()) as u64,
            },
        ),
        counts.len() == num_blocks ==> window_counts(latest, num_blocks, counts).dom()
            == block_window(latest, num_blocks),
    decreases counts.len(),
{
    let events = count_events(latest, announced, counts);
    let window = window_counts(latest, num_blocks, counts);
    if counts.len() == 0 {
        let event = Event::BlockNumber { number: latest, announced };
        assert(events =~= Seq::empty().push(event));
        lemma_one_more(state, Seq::empty(), event);
        assert(window =~= Map::empty());
    } else {
        let front = counts.drop_last();
        let event = Event::TransactionCount(counts.last());
        law_block_counts(state, token, num_blocks, latest, announced, front);
        assert(events =~= count_events(latest, announced, front).push(event));
        lemma_one_more(state, count_events(latest, announced, front), event);
        lemma_one_more_count(latest, num_blocks, counts);
    }
    if counts.len() == num_blocks {
        assert(window.dom() =~= block_window(latest, num_blocks));
    }
}

/// The replies of a chain whose blocks hold these numbers of transactions, for
/// the last `num_blocks` blocks.
pub open spec fn counts_on(
    chain: spec_fn(u64) -> u64,
    latest: u64,
    num_blocks: u64,
) -> Seq<u64> {
    Seq::new(num_blocks as nat, |i: int| chain((latest - num_blocks + 1 + i) as u64))
}

/// A larger window holds a smaller one of the same latest block, and only older
/// blocks besides.
pub proof fn law_windows_nest(latest: u64, fewer: u64, more: u64)
    requires
        fewer <= more,
    ensures
        block_window(latest, fewer).subset_of(block_window(latest, more)),
        forall|older: u64, block: u64|
            #![trigger block_window(latest, more).contains(older), block_window(latest, fewer).contains(block)]
            block_window(latest, more).contains(older) && !block_window(latest, fewer).contains(
                older,
            ) && block_window(latest, fewer).contains(block) ==> older < block,
{
}

/// Of the same chain, more blocks counted hold the fewer, with the same numbers
/// of transactions, and only older blocks besides.
pub proof fn law_more_blocks(
    state: ShooterState,
    token: Token,
    chain: spec_fn(u64) -> u64,
    latest: u64,
    announced: bool,
    fewer: u64,
    more: u64,
)
    requires
        fewer <= more <= latest + 1,
    ensures
        ({
            let few = after(
                state.at(Stage::LatestBlock { token, num_blocks: fewer }),
                count_events(latest, announced, counts_on(chain, latest, fewer)),
            );
            let many = after(
                state.at(Stage::LatestBlock { token, num_blocks: more }),
                count_events(latest, announced, counts_on(chain, latest, more)),
            );
            &&& few is Some && few->0.stage == (Stage::Metrics { token, latest })
            &&& many is Some && many->0.stage == (Stage::Metrics { token, latest })
            &&& few->0.counts.submap_of(many->0.counts)
            &&& forall|older: u64, block: u64|
                #![trigger many->0.counts.contains_key(older), few->0.counts.contains_key(block)]
                many->0.counts.contains_key(older) && !few->0.counts.contains_key(older)
                    && few->0.counts.contains_key(block) ==> older < block
        }),
{
    let fewer_counts = counts_on(chain, latest, fewer);
    let more_counts = counts_on(chain, latest, more);
    law_block_counts(
        state.at(Stage::LatestBlock { token, num_blocks: fewer }),
        token,
        fewer,
        latest,
        announced,
        fewer_counts,
    );
    law_block_counts(
        state.at(Stage::LatestBlock { token, num_blocks: more }),
        token,
        more,
        latest,
        announced,
        more_counts,
    );
    let small = window_counts(latest, fewer, fewer_counts);
    let large = window_counts(latest, more, more_counts);
    assert forall|block: u64| #[trigger] small.contains_key(block) implies large.contains_key(block)
        && small[block] == large[block] by {
        assert(small[block] == chain(block));
        assert(large[block] == chain(block));
    }
}

} // verus!
