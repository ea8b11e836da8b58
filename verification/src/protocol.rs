//! What a simulation asks of the node and what it makes of each reply, request by
//! request and field by field.
use crate::bindings::{
    artifact_class_hash, artifact_parse, bytes_be, contract_address_of, public_key_of, selector_of,
    utf8_error_of,
};
use crate::config::GatlingConfig;
use crate::connection::Deployer;
use crate::environment::EnvironmentView;
use crate::error::ErrorView;
use crate::felt::{prime, Felt};
use crate::laws::{
    after, count_events, law_account_creation, law_block_counts, law_contract_deployment,
    lemma_one_more,
};
use crate::phases::{account_events, law_setup_phase, setup_start, ClassReplies, SetupReplies};
use crate::report::law_filed;
use crate::requests::{
    law_calls, law_contract_address, law_fees, law_token_arguments, token_args,
    CallView, DeploymentView, InvocationView,
};
use crate::simulation::{
    class_hash_in, initial, Action, ActionView, BlockTag, DeclareReply, Event, ShooterState, Stage,
    Token,
};
use vstd::prelude::*;
use vstd::utf8::valid_utf8;

verus! {

/// A new simulation knows its configuration, its deployer and the deployer's next
/// nonce. It has done nothing, and asks for the chain id first.
pub proof fn law_new_simulation(config: GatlingConfig, deployer: Deployer, nonce: Felt)
    ensures
        ({
            let state = initial(config, deployer, nonce);
            &&& state.config == config
            &&& state.deployer == deployer
            &&& state.nonce == nonce
            &&& state.environment is None
            &&& state.report.chain_id is None
            &&& state.report.block_number is None
            &&& forall|token: Seq<char>| !#[trigger] state.report.reports.contains_key(token)
            &&& state.classes == Seq::<Felt>::empty()
            &&& state.accounts == Seq::<Felt>::empty()
            &&& state.contracts == Seq::<Felt>::empty()
            &&& state.transactions == Seq::<Felt>::empty()
            &&& state.counts == Map::<u64, u64>::empty()
            &&& state.stage is ChainId
            &&& state.pending() == Some(ActionView::ReadChainId)
        }),
{
}

/// The environment asked for is the one that the setup phase has left, whole; until
/// then it is an error.
pub proof fn law_environment_asked_for(state: ShooterState)
    ensures
        state.environment matches Some(environment) ==> state.populated() == Ok::<
            EnvironmentView,
            ErrorView,
        >(environment),
        state.environment is None ==> state.populated() == Err::<EnvironmentView, ErrorView>(
            ErrorView::EnvironmentNotPopulated,
        ),
{
}

/// What the driver sees of an action is what the action holds.
pub proof fn law_actions_as_seen(action: Action)
    ensures
        action is ReadChainId <==> action@ is ReadChainId,
        action is ReadBlockNumber <==> action@ is ReadBlockNumber,
        action is DrawRandom <==> action@ is DrawRandom,
        action is ComputeMetrics <==> action@ is ComputeMetrics,
        action is TearDown <==> action@ is TearDown,
        action matches Action::ReadArtifact { path } ==> action@ == (ActionView::ReadArtifact {
            path: path@,
        }),
        action matches Action::Declare { class_hash, block } ==> action@ == (ActionView::Declare {
            class_hash,
            block,
        }),
        action matches Action::PrepareAccount { class_hash, chain_id, block } ==> action@ == (
        ActionView::PrepareAccount { class_hash, chain_id, block }),
        action matches Action::DeployAccount { salt } ==> action@ == (ActionView::DeployAccount {
            salt,
        }),
        action matches Action::AwaitTransaction { transaction } ==> action@ == (
        ActionView::AwaitTransaction { transaction }),
        action matches Action::CountTransactions { block } ==> action@ == (
        ActionView::CountTransactions { block }),
        action matches Action::Invoke(sent) ==> action@ == ActionView::Invoke(
            InvocationView {
                call: CallView {
                    to: sent.call.to,
                    selector: sent.call.selector,
                    calldata: sent.call.calldata@,
                },
                max_fee: sent.max_fee,
                nonce: sent.nonce,
            },
        ),
        action matches Action::Deploy(sent) ==> action@ == ActionView::Deploy(
            DeploymentView {
                class_hash: sent.class_hash,
                salt: sent.salt,
                constructor_args: sent.constructor_args@,
                unique: sent.unique,
                max_fee: sent.max_fee,
                nonce: sent.nonce,
            },
        ),
{
}

/// The artifacts are asked for in the order ERC20, ERC721, account, each at its
/// configured path.
pub proof fn law_artifact_requests(state: ShooterState)
    requires
        state.stage is ReadArtifact,
    ensures
        ({
            let setup = state.config.simulation.setup;
            &&& state.classes.len() == 0 ==> state.pending() == Some(
                ActionView::ReadArtifact { path: setup.erc20_contract_path@ },
            )
            &&& state.classes.len() == 1 ==> state.pending() == Some(
                ActionView::ReadArtifact { path: setup.erc721_contract_path@ },
            )
            &&& state.classes.len() == 2 ==> state.pending() == Some(
                ActionView::ReadArtifact { path: setup.account_contract_path@ },
            )
        }),
{
}

/// A transfer calls the entry point `transfer` of the contract with a fixed
/// recipient and amount, at the fee limit and the next nonce.
pub proof fn law_transfer_fields(state: ShooterState, contract: Felt)
    ensures
        ({
            let sent = state.transfer(contract);
            &&& sent.call.to == contract
            &&& sent.call.selector == Felt::of(selector_of("transfer"@))
            &&& sent.call.calldata == seq![Felt::of(2), Felt::of(0x1000000), Felt::of(0)]
            &&& sent.max_fee.value() == 0xfffffffffff
            &&& sent.nonce == state.nonce
        }),
{
    law_calls(Felt::of(0), contract);
    law_fees();
}

/// A mint calls the entry point `mint` of the contract with a fixed recipient and
/// the token id, at the fee limit and the next nonce.
pub proof fn law_mint_fields(state: ShooterState, token_id: Felt, contract: Felt)
    ensures
        ({
            let sent = state.mint(token_id, contract);
            &&& sent.call.to == contract
            &&& sent.call.selector == Felt::of(selector_of("mint"@))
            &&& sent.call.calldata == seq![Felt::of(2), token_id, Felt::of(0)]
            &&& sent.max_fee.value() == 0xfffffffffff
            &&& sent.nonce == state.nonce
        }),
{
    law_calls(token_id, contract);
    law_fees();
}

/// Every ERC20 transfer of the run phase is a call of `transfer` of the ERC20
/// contract of the environment.
pub proof fn law_erc20_requests(state: ShooterState)
    requires
        state.stage is Transfer,
        state.environment is Some,
    ensures
        state.pending() matches Some(ActionView::Invoke(sent)) && {
            &&& sent.call.to == state.environment->0.erc20_address
            &&& sent.call.selector == Felt::of(selector_of("transfer"@))
            &&& sent.call.calldata == seq![Felt::of(2), Felt::of(0x1000000), Felt::of(0)]
            &&& sent.max_fee.value() == 0xfffffffffff
            &&& sent.nonce == state.nonce
        },
{
    law_transfer_fields(state, state.environment->0.erc20_address);
}

/// Every ERC721 mint of the run phase is a call of `mint` of the ERC721 contract
/// of the environment, for the token id drawn for it.
pub proof fn law_erc721_requests(state: ShooterState, token_id: Felt)
    requires
        state.stage is TokenId || state.stage == (Stage::Mint { token_id }),
        state.environment is Some,
    ensures
        state.stage is TokenId ==> state.pending() == Some(ActionView::DrawRandom),
        ({
            let drawn = if state.stage is TokenId {
                state.step(Event::Random(token_id))
            } else {
                Ok(state)
            };
            drawn is Ok && (drawn->Ok_0.pending() matches Some(ActionView::Invoke(sent)) && {
                &&& sent.call.to == state.environment->0.erc721_address
                &&& sent.call.selector == Felt::of(selector_of("mint"@))
                &&& sent.call.calldata == seq![Felt::of(2), token_id, Felt::of(0)]
                &&& sent.max_fee.value() == 0xfffffffffff
                &&& sent.nonce == state.nonce
            })
        }),
{
    law_mint_fields(state, token_id, state.environment->0.erc721_address);
}

/// An account is deployed from a factory for the account class on the deployer's
/// chain, with the salt drawn for it. Once it is confirmed, the transfer that
/// follows goes to where that very deployment put the account: the address of the
/// whole salt, the account class and the deployer's public key.
#[verifier::rlimit(30)]
pub proof fn law_account_requests(
    state: ShooterState,
    salt: Felt,
    contract_address: Felt,
    deployment: Felt,
    transfer: Felt,
)
    requires
        state.stage is PrepareAccount,
    ensures
        ({
            let made = seq![Event::FactoryReady];
            let drawn = seq![Event::FactoryReady, Event::Random(salt)];
            let sent = drawn.push(Event::AccountSent { contract_address, transaction: deployment });
            let confirmed = sent.push(Event::Confirmed);
            let funded = confirmed.push(Event::Sent { transaction: transfer });
            let key = public_key_of(state.deployer.signing_key.value());
            &&& state.pending() == Some(
                ActionView::PrepareAccount {
                    class_hash: state.classes[2],
                    chain_id: state.deployer.chain_id,
                    block: BlockTag::Pending,
                },
            )
            &&& after(state, made) matches Some(s) && s.pending() == Some(ActionView::DrawRandom)
            &&& after(state, drawn) matches Some(s) && s.pending() == Some(
                ActionView::DeployAccount { salt },
            )
            &&& after(state, sent) matches Some(s) && s.pending() == Some(
                ActionView::AwaitTransaction { transaction: deployment },
            ) && s.accounts == state.accounts.push(contract_address)
            &&& after(state, confirmed) matches Some(s) && (s.pending() matches Some(
                ActionView::Invoke(call),
            ) && {
                &&& call.call.to == Felt::of(
                    contract_address_of(
                        salt.value(),
                        state.classes[2].value(),
                        seq![Felt::of(key).value()],
                        0,
                    ),
                )
                &&& key < prime() ==> call.call.to == Felt::of(
                    contract_address_of(salt.value(), state.classes[2].value(), seq![key], 0),
                )
                &&& call.call.selector == Felt::of(selector_of("transfer"@))
                &&& call.call.calldata == seq![Felt::of(2), Felt::of(0x1000000), Felt::of(0)]
                &&& call.max_fee.value() == 0xfffffffffff
                &&& call.nonce == state.nonce
            })
            &&& after(state, funded) matches Some(s) && {
                &&& s.accounts == state.accounts.push(contract_address)
                &&& s.nonce.value() == (state.nonce.value() + 1) % prime()
                &&& state.accounts.len() + 1 < state.config.simulation.setup.num_accounts
                    ==> s.stage is PrepareAccount
                &&& state.accounts.len() + 1 >= state.config.simulation.setup.num_accounts
                    ==> s.stage is ContractSalt
            }
        }),
{
    broadcast use {Felt::lemma_value_of, Felt::lemma_of_value};

    let made = seq![Event::FactoryReady];
    assert(made =~= Seq::empty().push(Event::FactoryReady));
    lemma_one_more(state, Seq::empty(), Event::FactoryReady);
    law_account_creation(state, salt, contract_address, deployment, transfer);
    let key = Felt::of(public_key_of(state.deployer.signing_key.value()));
    law_contract_address(salt, state.classes[2], seq![key], seq![key.value()]);
    law_transfer_fields(state, state.account_address(salt));
    let drawn = seq![Event::FactoryReady, Event::Random(salt)];
    let sent = drawn.push(Event::AccountSent { contract_address, transaction: deployment });
    assert(drawn =~= made.push(Event::Random(salt)));
    lemma_one_more(state, made, Event::Random(salt));
    lemma_one_more(state, drawn, Event::AccountSent { contract_address, transaction: deployment });
    lemma_one_more(state, sent, Event::Confirmed);
}

/// A token contract is deployed from the ERC721 class, with the salt drawn for it
/// and two constants and the deployer as its arguments. Once it is confirmed, the
/// address recorded for it is that of the deployment sent: the same salt, the same
/// class and the same arguments in the same order, each as a number in `args`.
pub proof fn law_contract_requests(
    state: ShooterState,
    salt: Felt,
    transaction: Felt,
    args: Seq<nat>,
)
    requires
        state.stage is ContractSalt,
    ensures
        ({
            let drawn = seq![Event::Random(salt)];
            let sent = drawn.push(Event::Sent { transaction });
            let confirmed = sent.push(Event::Confirmed);
            &&& state.pending() == Some(ActionView::DrawRandom)
            &&& after(state, drawn) matches Some(s) && (s.pending() matches Some(
                ActionView::Deploy(d),
            ) && {
                &&& d.salt == salt
                &&& d.class_hash == state.classes[1]
                &&& d.constructor_args == seq![
                    Felt::of(0xa1),
                    Felt::of(0xa2),
                    state.deployer.address,
                ]
                &&& !d.unique
                &&& d.max_fee.value() == 0xfffffffffff + 1
                &&& d.nonce == state.nonce
                &&& args.len() == d.constructor_args.len() && (forall|i: int|
                    0 <= i < args.len() ==> #[trigger] args[i] == d.constructor_args[i].value())
                    ==> (after(state, confirmed) matches Some(c) && c.contracts
                    == state.contracts.push(
                    Felt::of(contract_address_of(d.salt.value(), d.class_hash.value(), args, 0)),
                ))
            })
            &&& after(state, sent) matches Some(s) && s.pending() == Some(
                ActionView::AwaitTransaction { transaction },
            ) && s.nonce.value() == (state.nonce.value() + 1) % prime()
            &&& after(state, confirmed) matches Some(s) && {
                &&& s.contracts == state.contracts.push(
                    Felt::of(
                        contract_address_of(
                            salt.value(),
                            state.classes[1].value(),
                            seq![0xa1, 0xa2, state.deployer.address.value()],
                            0,
                        ),
                    ),
                )
                &&& state.contracts.len() == 0 ==> s.stage is ContractSalt && s.environment
                    == state.environment
                &&& state.contracts.len() == 1 ==> s.stage is Transfer && (
                s.environment matches Some(environment) && {
                    &&& environment.erc20_class_hash == state.classes[0]
                    &&& environment.erc721_class_hash == state.classes[1]
                    &&& environment.account_class_hash == state.classes[2]
                    &&& environment.erc20_address == state.contracts[0]
                    &&& environment.erc721_address == s.contracts[1]
                    &&& environment.accounts == state.accounts
                })
            }
        }),
{
    broadcast use {Felt::lemma_value_of, Felt::lemma_of_value};

    law_contract_deployment(state, salt, transaction);
    law_token_arguments(state.deployer.address);
    law_fees();
    let own = token_args(state.deployer.address);
    let numbers = seq![0xa1nat, 0xa2nat, state.deployer.address.value()];
    assert forall|i: int| 0 <= i < numbers.len() implies #[trigger] numbers[i] == own[i].value() by {
        assert(own[i] == seq![Felt::of(0xa1), Felt::of(0xa2), state.deployer.address][i]);
    }
    law_contract_address(salt, state.classes[1], own, numbers);
    if args.len() == own.len() && (forall|i: int|
        0 <= i < args.len() ==> #[trigger] args[i] == own[i].value()) {
        law_contract_address(salt, state.classes[1], own, args);
    }
    let drawn = seq![Event::Random(salt)];
    assert(drawn =~= Seq::empty().push(Event::Random(salt)));
    lemma_one_more(state, Seq::empty(), Event::Random(salt));
    lemma_one_more(state, drawn, Event::Sent { transaction });
}

/// The hash that a class is known under, in the environment of a setup phase: the
/// node's own, or, where the node had the class already, that of the artifact.
pub open spec fn known_as(class: ClassReplies, hash: Felt) -> bool {
    &&& class.reply matches DeclareReply::Declared(given) ==> hash == given
    &&& class.reply is ClassAlreadyDeclared ==> (artifact_class_hash(class.artifact@) matches Ok(own)
        && hash == Felt::of(own))
}

/// The replies of a setup phase up to the reading of the ERC20 artifact.
pub open spec fn before_erc20(replies: SetupReplies) -> Seq<Event> {
    seq![
        Event::ChainId(replies.chain_id),
        Event::BlockNumber { number: replies.number, announced: replies.announced },
    ]
}

/// The replies of a setup phase up to the reading of the ERC721 artifact.
pub open spec fn before_erc721(replies: SetupReplies) -> Seq<Event> {
    before_erc20(replies).push(Event::Artifact(replies.erc20_class.artifact)).push(
        Event::Declaration(replies.erc20_class.reply),
    )
}

/// The replies of a setup phase up to the reading of the account artifact.
pub open spec fn before_account(replies: SetupReplies) -> Seq<Event> {
    before_erc721(replies).push(Event::Artifact(replies.erc721_class.artifact)).push(
        Event::Declaration(replies.erc721_class.reply),
    )
}

/// Over a setup phase, the artifact at the ERC20 path is read first, the one at
/// the ERC721 path next and the one at the account path last.
pub proof fn law_files_in_order(state: ShooterState, replies: SetupReplies)
    requires
        replies.complete(state.num_accounts()),
    ensures
        ({
            let start = setup_start(state);
            let setup = state.config.simulation.setup;
            &&& after(start, before_erc20(replies)) matches Some(s) && s.pending() == Some(
                ActionView::ReadArtifact { path: setup.erc20_contract_path@ },
            )
            &&& after(start, before_erc721(replies)) matches Some(s) && s.pending() == Some(
                ActionView::ReadArtifact { path: setup.erc721_contract_path@ },
            )
            &&& after(start, before_account(replies)) matches Some(s) && s.pending() == Some(
                ActionView::ReadArtifact { path: setup.account_contract_path@ },
            )
        }),
{
    let start = setup_start(state);
    let chain = Event::ChainId(replies.chain_id);
    let block = Event::BlockNumber { number: replies.number, announced: replies.announced };
    let e0 = before_erc20(replies);
    assert(e0 =~= Seq::empty().push(chain).push(block));
    lemma_one_more(start, Seq::empty(), chain);
    lemma_one_more(start, Seq::empty().push(chain), block);
    let s0 = after(start, e0)->0;
    lemma_declared(start, e0, replies.erc20_class);
    let s1 = after(start, before_erc721(replies))->0;
    lemma_declared(start, before_erc721(replies), replies.erc721_class);
    let s2 = after(start, before_account(replies))->0;
    law_artifact_requests(s0);
    law_artifact_requests(s1);
    law_artifact_requests(s2);
}

/// Over a setup phase, the ERC20 class of the environment is the one read first,
/// the ERC721 class the one read next and the account class the one read last.
pub proof fn law_class_of_each_file(state: ShooterState, replies: SetupReplies)
    requires
        state.nonce.value() < prime(),
        replies.complete(state.num_accounts()),
    ensures
        before_account(replies).push(Event::Artifact(replies.account_class.artifact)).push(
            Event::Declaration(replies.account_class.reply),
        ).is_prefix_of(replies.events()),
        after(setup_start(state), replies.events()) matches Some(end) && (
        end.environment matches Some(environment) && {
            &&& known_as(replies.erc20_class, environment.erc20_class_hash)
            &&& known_as(replies.erc721_class, environment.erc721_class_hash)
            &&& known_as(replies.account_class, environment.account_class_hash)
        }),
{
    law_setup_phase(state, replies);
    let read = before_account(replies).push(Event::Artifact(replies.account_class.artifact)).push(
        Event::Declaration(replies.account_class.reply),
    );
    let rest = account_events(replies.accounts) + replies.erc20.events() + replies.erc721.events();
    assert(read =~= replies.start_events() + replies.erc20_class.events()
        + replies.erc721_class.events() + replies.account_class.events());
    assert(read + rest =~= replies.events());
    assert((read + rest).subrange(0, read.len() as int) =~= read);
}

proof fn lemma_declared(start: ShooterState, events: Seq<Event>, class: ClassReplies)
    requires
        after(start, events) is Some,
        after(start, events)->0.stage is ReadArtifact,
        class.declared(),
    ensures
        after(
            start,
            events.push(Event::Artifact(class.artifact)).push(Event::Declaration(class.reply)),
        ) == Some(after(start, events)->0.with_class(class.class_hash())),
{
    let read = Event::Artifact(class.artifact);
    lemma_one_more(start, events, read);
    lemma_one_more(start, events.push(read), Event::Declaration(class.reply));
}

/// An artifact is refused where it does not parse or its class has no hash, with
/// the reason for it. Otherwise the class is declared next, under its own hash,
/// against the pending block.
pub proof fn law_artifact_reply(state: ShooterState, artifact: Vec<u8>)
    requires
        state.stage is ReadArtifact,
    ensures
        ({
            let reply = state.step(Event::Artifact(artifact));
            &&& artifact_parse(artifact@) matches Err(reason) ==> reply == Err::<
                ShooterState,
                ErrorView,
            >(ErrorView::MalformedArtifact(reason))
            &&& artifact_parse(artifact@) is Ok ==> (artifact_class_hash(artifact@) matches Err(
                reason,
            ) ==> reply == Err::<ShooterState, ErrorView>(ErrorView::UnhashableArtifact(reason)))
            &&& artifact_parse(artifact@) is Ok ==> (artifact_class_hash(artifact@) matches Ok(
                hash,
            ) ==> (reply matches Ok(next) && next.pending() == Some(
                ActionView::Declare { class_hash: Felt::of(hash), block: BlockTag::Pending },
            )))
            &&& class_hash_in(artifact@) is Ok <==> reply is Ok
            &&& class_hash_in(artifact@) matches Err(error) ==> reply == Err::<
                ShooterState,
                ErrorView,
            >(error)
            &&& class_hash_in(artifact@) matches Ok(hash) ==> (artifact_class_hash(
                artifact@,
            ) matches Ok(own) && hash == Felt::of(own))
        }),
{
}

/// Which replies a simulation takes: those that answer the pending request. A
/// refused declaration, a failed check, and a chain with fewer blocks than are to
/// be counted are not among them; neither is the failure of what cannot fail.
pub proof fn law_replies_taken(state: ShooterState, event: Event)
    requires
        state.wf(),
    ensures
        ({
            let asked = state.pending();
            let taken = state.accepts(event);
            match event {
                Event::ChainId(_) => taken == (asked == Some(ActionView::ReadChainId)),
                Event::BlockNumber { number, .. } => taken == (asked == Some(
                    ActionView::ReadBlockNumber,
                ) && (state.in_setup() || 3 <= number)),
                Event::Artifact(_) => taken == (asked is Some && asked->0 is ReadArtifact),
                Event::Declaration(reply) => taken == (asked is Some && asked->0 is Declare && !(
                reply is Refused)),
                Event::FactoryReady => taken == (asked is Some && asked->0 is PrepareAccount),
                Event::Random(_) => taken == (asked == Some(ActionView::DrawRandom)),
                Event::AccountSent { .. } => taken == (asked is Some && asked->0 is DeployAccount),
                Event::Confirmed => taken == (asked is Some && asked->0 is AwaitTransaction),
                Event::Sent { .. } => taken == (asked is Some && (asked->0 is Invoke
                    || asked->0 is Deploy)),
                Event::TransactionCount(_) => taken == (asked is Some
                    && asked->0 is CountTransactions),
                Event::Metrics(_) => taken == (asked == Some(ActionView::ComputeMetrics)),
                Event::TornDown => taken == (asked == Some(ActionView::TearDown)),
                Event::Failed(_) => taken == (asked is Some && !(asked->0 is Declare
                    || asked->0 is DrawRandom || asked->0 is ComputeMetrics || asked->0 is TearDown
                    || (asked->0 is AwaitTransaction && !state.in_setup()))),
            }
        }),
{
}

/// Which replies end a simulation with an error, and with which one: failures,
/// a chain id shown that is no text, and artifacts without a class hash. Every
/// other reply taken leads on.
pub proof fn law_replies_refused(state: ShooterState, event: Event)
    requires
        state.wf(),
        state.accepts(event),
    ensures
        ({
            let reply = state.step(event);
            match (state.stage, event) {
                (_, Event::Failed(reason)) => reply == Err::<ShooterState, ErrorView>(
                    ErrorView::Remote(reason@),
                ),
                (Stage::BlockNumber { chain_id }, Event::BlockNumber { announced, .. }) => {
                    let bytes = bytes_be(chain_id.value());
                    if announced && !valid_utf8(bytes) {
                        reply == Err::<ShooterState, ErrorView>(
                            ErrorView::ChainIdNotText(utf8_error_of(bytes)),
                        )
                    } else {
                        reply is Ok
                    }
                },
                (_, Event::Artifact(artifact)) => reply is Ok <==> artifact_parse(artifact@) is Ok
                    && artifact_class_hash(artifact@) is Ok,
                _ => reply is Ok,
            }
        }),
{
}

/// What a reply changes of what a simulation has gathered. Each part changes on
/// one kind of reply, and keeps on every other.
pub proof fn law_reply_recorded(state: ShooterState, event: Event)
    requires
        state.wf(),
        state.accepts(event),
        state.step(event) is Ok,
    ensures
        ({
            let next = state.step(event)->Ok_0;
            &&& next.config == state.config
            &&& next.deployer == state.deployer
            &&& event is Sent ==> next.nonce.value() == (state.nonce.value() + 1) % prime()
            &&& !(event is Sent) ==> next.nonce == state.nonce
            &&& match event {
                Event::Declaration(DeclareReply::Declared(hash)) => next.classes
                    == state.classes.push(hash),
                Event::Declaration(_) => state.pending() matches Some(
                    ActionView::Declare { class_hash, .. },
                ) && next.classes == state.classes.push(class_hash),
                _ => next.classes == state.classes,
            }
            &&& match event {
                Event::AccountSent { contract_address, .. } => next.accounts
                    == state.accounts.push(contract_address),
                _ => next.accounts == state.accounts,
            }
            &&& match (state.stage, event) {
                (Stage::AwaitContract { salt, .. }, Event::Confirmed) => next.contracts
                    == state.contracts.push(
                    Felt::of(
                        contract_address_of(
                            salt.value(),
                            state.classes[1].value(),
                            seq![0xa1, 0xa2, state.deployer.address.value()],
                            0,
                        ),
                    ),
                ),
                _ => next.contracts == state.contracts,
            }
            &&& match (state.stage, event) {
                (Stage::AwaitContract { .. }, Event::Confirmed) => next.environment is Some
                    <==> state.contracts.len() == 1,
                _ => next.environment == state.environment,
            }
            &&& match (state.stage, event) {
                (Stage::Transfer, Event::Sent { transaction }) => next.transactions
                    == state.transactions.push(transaction),
                (Stage::Mint { .. }, Event::Sent { transaction }) => next.transactions
                    == state.transactions.push(transaction),
                (_, Event::Metrics(_)) => next.transactions == Seq::<Felt>::empty(),
                _ => next.transactions == state.transactions,
            }
            &&& match (state.stage, event) {
                (Stage::LatestBlock { .. }, Event::BlockNumber { .. }) => next.counts == Map::<
                    u64,
                    u64,
                >::empty(),
                (_, Event::TransactionCount(count)) => state.pending() matches Some(
                    ActionView::CountTransactions { block },
                ) && next.counts == state.counts.insert(block, count),
                _ => next.counts == state.counts,
            }
            &&& !(event is Metrics) ==> next.report == state.report
        }),
{
    broadcast use {Felt::lemma_value_of, Felt::lemma_of_value};

    assert(Felt::of(1).value() == 1);
    if let (Stage::AwaitContract { salt, .. }, Event::Confirmed) = (state.stage, event) {
        law_token_arguments(state.deployer.address);
        let own = token_args(state.deployer.address);
        let numbers = seq![0xa1nat, 0xa2nat, state.deployer.address.value()];
        assert forall|i: int| 0 <= i < numbers.len() implies #[trigger] numbers[i]
            == own[i].value() by {
            assert(own[i] == seq![Felt::of(0xa1), Felt::of(0xa2), state.deployer.address][i]);
        }
        law_contract_address(salt, state.classes[1], own, numbers);
    }
}

/// The metrics of a token are filed under the token's name: each metric with the
/// last value given for it, and no others. Nothing else in the report changes.
pub proof fn law_metrics_recorded(
    state: ShooterState,
    metrics: Vec<(String, String)>,
    name: Seq<char>,
    i: int,
)
    requires
        state.stage is Metrics,
    ensures
        ({
            let token = state.stage->Metrics_token;
            let filed_as = match token {
                Token::Erc20 => "erc20"@,
                Token::Erc721 => "erc721"@,
            };
            state.step(Event::Metrics(metrics)) matches Ok(next) && {
                &&& next.report.chain_id == state.report.chain_id
                &&& next.report.block_number == state.report.block_number
                &&& next.report.reports.contains_key(filed_as)
                &&& 0 <= i < metrics@.len() && (forall|j: int|
                    i < j < metrics@.len() ==> (#[trigger] metrics@[j]).0@ != metrics@[i].0@)
                    ==> next.report.reports[filed_as].contains_key(metrics@[i].0@)
                    && next.report.reports[filed_as][metrics@[i].0@] == metrics@[i].1@
                &&& next.report.reports[filed_as].contains_key(name) <==> exists|j: int|
                    0 <= j < metrics@.len() && (#[trigger] metrics@[j]).0@ == name
                &&& forall|other: Seq<char>|
                    other != filed_as ==> (#[trigger] next.report.reports.contains_key(other)
                        <==> state.report.reports.contains_key(other))
                        && next.report.reports[other] == state.report.reports[other]
                &&& token is Erc20 ==> next.stage is TokenId
                &&& token is Erc721 ==> next.stage is TearDown
            }
        }),
{
    let filed_as = state.stage->Metrics_token.spec_name();
    law_filed(state.report, filed_as, metrics@, name, i);
}

/// What is asked for next, after each reply: the value drawn, the transaction
/// sent or the block counted goes into the request that follows it.
pub proof fn law_next_request(state: ShooterState, event: Event)
    requires
        state.wf(),
        state.accepts(event),
        state.step(event) is Ok,
    ensures
        ({
            let next = state.step(event)->Ok_0;
            let asked = next.pending();
            match (state.stage, event) {
                (Stage::ChainId, Event::ChainId(chain_id)) => next.stage == (Stage::BlockNumber {
                    chain_id,
                }) && asked == Some(ActionView::ReadBlockNumber),
                (Stage::BlockNumber { .. }, _) => next.stage is ReadArtifact,
                (Stage::ReadArtifact, _) => asked is Some && asked->0 is Declare,
                (Stage::Declare { .. }, _) => if state.classes.len() < 2 {
                    next.stage is ReadArtifact
                } else if state.config.simulation.setup.num_accounts > 0 {
                    next.stage is PrepareAccount
                } else {
                    next.stage is ContractSalt
                },
                (Stage::PrepareAccount, _) => next.stage is AccountSalt && asked == Some(
                    ActionView::DrawRandom,
                ),
                (Stage::AccountSalt, Event::Random(salt)) => asked == Some(
                    ActionView::DeployAccount { salt },
                ),
                (Stage::DeployAccount { .. }, Event::AccountSent { transaction, .. }) => asked
                    == Some(ActionView::AwaitTransaction { transaction }),
                (Stage::AwaitAccount { address, .. }, _) => asked matches Some(
                    ActionView::Invoke(call),
                ) && call.call.to == address,
                (Stage::FundAccount { .. }, _) => if state.accounts.len()
                    < state.config.simulation.setup.num_accounts {
                    next.stage is PrepareAccount
                } else {
                    next.stage is ContractSalt
                },
                (Stage::ContractSalt, Event::Random(salt)) => asked matches Some(
                    ActionView::Deploy(deployment),
                ) && deployment.salt == salt,
                (Stage::DeployContract { salt }, Event::Sent { transaction }) => next.stage == (
                Stage::AwaitContract { salt, transaction }) && asked == Some(
                    ActionView::AwaitTransaction { transaction },
                ),
                (Stage::AwaitContract { .. }, _) => if state.contracts.len() == 0 {
                    next.stage is ContractSalt
                } else {
                    next.stage is Transfer
                },
                (Stage::Transfer, Event::Sent { .. }) => if state.transactions.len() + 1 < 1000 {
                    next.stage is Transfer
                } else {
                    asked == Some(
                        ActionView::AwaitTransaction { transaction: next.transactions[0] },
                    ) && next.stage == (Stage::Check { token: Token::Erc20, checked: 0 })
                },
                (Stage::TokenId, Event::Random(token_id)) => next.stage == (Stage::Mint {
                    token_id,
                }),
                (Stage::Mint { .. }, Event::Sent { .. }) => if state.transactions.len() + 1 < 1000 {
                    next.stage is TokenId
                } else {
                    asked == Some(
                        ActionView::AwaitTransaction { transaction: next.transactions[0] },
                    ) && next.stage == (Stage::Check { token: Token::Erc721, checked: 0 })
                },
                (Stage::Check { token, checked }, _) => if checked + 1 < 1000 {
                    asked == Some(
                        ActionView::AwaitTransaction {
                            transaction: state.transactions[checked + 1],
                        },
                    )
                } else {
                    next.stage == (Stage::LatestBlock { token, num_blocks: 4 }) && asked == Some(
                        ActionView::ReadBlockNumber,
                    )
                },
                (Stage::LatestBlock { .. }, Event::BlockNumber { number, .. }) => asked == Some(
                    ActionView::CountTransactions { block: (number - 3) as u64 },
                ),
                (Stage::CountBlock { token, block, latest }, _) => if block < latest {
                    asked == Some(ActionView::CountTransactions { block: (block + 1) as u64 })
                } else {
                    next.stage == (Stage::Metrics { token, latest }) && asked == Some(
                        ActionView::ComputeMetrics,
                    )
                },
                (Stage::Metrics { token, .. }, _) => match token {
                    Token::Erc20 => next.stage is TokenId && asked == Some(ActionView::DrawRandom),
                    Token::Erc721 => asked == Some(ActionView::TearDown),
                },
                (Stage::TearDown, _) => next.stage is Finished && asked is None,
                _ => false,
            }
        }),
{
}

/// When all blocks are counted, a block has a count if and only if it is one of
/// the last `num_blocks`, and it is the one that the node gave for it.
pub proof fn law_counts_of_blocks(
    state: ShooterState,
    token: Token,
    num_blocks: u64,
    latest: u64,
    announced: bool,
    counts: Seq<u64>,
    block: u64,
)
    requires
        state.stage == (Stage::LatestBlock { token, num_blocks }),
        num_blocks <= latest + 1,
        counts.len() == num_blocks,
    ensures
        ({
            let replies = seq![Event::BlockNumber { number: latest, announced }] + Seq::new(
                counts.len(),
                |i: int| Event::TransactionCount(counts[i]),
            );
            after(state, replies) matches Some(end) && {
                &&& end.stage == (Stage::Metrics { token, latest })
                &&& end.counts.contains_key(block) <==> latest < block + num_blocks && block
                    <= latest
                &&& end.counts.contains_key(block) ==> end.counts[block] == counts[counts.len() - 1
                    - (latest - block)]
            }
        }),
{
    let replies = seq![Event::BlockNumber { number: latest, announced }] + Seq::new(
        counts.len(),
        |i: int| Event::TransactionCount(counts[i]),
    );
    assert(replies =~= count_events(latest, announced, counts));
    law_block_counts(state, token, num_blocks, latest, announced, counts);
}

} // verus!
