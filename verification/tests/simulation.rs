use gatling::config::{
    DeployerConfig, GatlingConfig, RpcConfig, SetupConfig, SimulationConfig,
};
use gatling::connection::deployer;
use gatling::error::ShootError;
use gatling::felt::Felt;
use gatling::requests::{calculate_contract_address, constructor_args};
use gatling::shooter::{class_hash_of_artifact, declared_class_hash, GatlingShooter};
use gatling::simulation::{Action, BlockTag, DeclareReply, Event, Stage, Token, NUM_BLOCKS};

fn felt(value: u64) -> Felt {
    Felt::from_u64(value)
}

fn config(num_accounts: u32) -> GatlingConfig {
    GatlingConfig {
        rpc: RpcConfig { url: "http://localhost:9944".to_string() },
        deployer: DeployerConfig { address: "0xd0".to_string(), signing_key: "0x5".to_string() },
        simulation: SimulationConfig {
            fail_fast: false,
            setup: SetupConfig {
                erc20_contract_path: "erc20.json".to_string(),
                erc721_contract_path: "erc721.json".to_string(),
                account_contract_path: "account.json".to_string(),
                num_accounts,
            },
        },
    }
}

fn artifact(data: &str, builtin: &str) -> Vec<u8> {
    format!(
        "{{\"abi\":[],\"entry_points_by_type\":{{\"CONSTRUCTOR\":[],\"EXTERNAL\":[],\
         \"L1_HANDLER\":[]}},\"program\":{{\"builtins\":[\"{builtin}\"],\"data\":[\"{data}\"],\
         \"debug_info\":null,\"hints\":{{}},\"identifiers\":{{}},\"main_scope\":\"__main__\",\
         \"prime\":\"0x800000000000011000000000000000000000000000000000000000000000001\",\
         \"reference_manager\":{{\"references\":[]}}}}}}"
    )
    .into_bytes()
}

fn shooter(num_accounts: u32, nonce: u64) -> GatlingShooter {
    GatlingShooter::new(config(num_accounts), felt(nonce)).unwrap()
}

fn feed(shooter: &mut GatlingShooter, event: Event) {
    assert!(shooter.accepts(&event));
    shooter.handle(event).unwrap();
}

fn refuse(shooter: &mut GatlingShooter, event: Event) -> ShootError {
    let before = (shooter.stage(), shooter.pending());
    assert!(shooter.accepts(&event));
    let error = shooter.handle(event).unwrap_err();
    assert_eq!(before, (shooter.stage(), shooter.pending()));
    error
}

fn metrics(value: &str) -> Vec<(String, String)> {
    vec![("TPS".to_string(), value.to_string())]
}

/// What a run saw.
#[derive(Default)]
struct Seen {
    steps: usize,
    nonces: Vec<Felt>,
    artifacts: Vec<String>,
    called: Vec<Felt>,
    awaited: Vec<Felt>,
    counted: Vec<u64>,
}

/// Plays a whole simulation. Every transaction and every random element has a
/// number of its own.
fn play(shooter: &mut GatlingShooter) -> Seen {
    let mut seen = Seen::default();
    let mut fresh = 1000;
    while let Some(action) = shooter.pending() {
        fresh += 1;
        let event = match action {
            Action::ReadChainId => Event::ChainId(felt(0x534e)),
            Action::ReadBlockNumber => Event::BlockNumber { number: 50, announced: true },
            Action::ReadArtifact { path } => {
                seen.artifacts.push(path);
                Event::Artifact(artifact("0x1", "pedersen"))
            }
            Action::Declare { block, .. } => {
                assert_eq!(block, BlockTag::Pending);
                Event::Declaration(DeclareReply::Declared(felt(seen.artifacts.len() as u64)))
            }
            Action::PrepareAccount { class_hash, chain_id, block } => {
                assert_eq!(class_hash, felt(3));
                assert_eq!(chain_id, Felt::from_u128(0x534e5f474f45524c49));
                assert_eq!(block, BlockTag::Pending);
                Event::FactoryReady
            }
            Action::DrawRandom => Event::Random(felt(fresh)),
            Action::DeployAccount { salt } => {
                assert_eq!(salt, felt(fresh - 1));
                Event::AccountSent { contract_address: felt(fresh), transaction: felt(fresh) }
            }
            Action::AwaitTransaction { transaction } => {
                seen.awaited.push(transaction);
                Event::Confirmed
            }
            Action::Invoke(invocation) => {
                assert_eq!(invocation.max_fee, felt(0xfffffffffff));
                seen.nonces.push(invocation.nonce);
                seen.called.push(invocation.call.to);
                Event::Sent { transaction: felt(fresh) }
            }
            Action::Deploy(deployment) => {
                assert_eq!(deployment.class_hash, felt(2));
                assert_eq!(deployment.salt, felt(fresh - 1));
                assert_eq!(deployment.constructor_args, constructor_args(felt(0xd0)));
                assert!(!deployment.unique);
                assert_eq!(deployment.max_fee, felt(0x100000000000));
                seen.nonces.push(deployment.nonce);
                Event::Sent { transaction: felt(fresh) }
            }
            Action::CountTransactions { block } => {
                seen.counted.push(block);
                Event::TransactionCount(block * 10)
            }
            Action::ComputeMetrics => {
                let counts = shooter.num_tx_per_block();
                assert_eq!(counts.len(), 4);
                for block in 47..=50 {
                    assert_eq!(counts[&block], block * 10);
                }
                Event::Metrics(metrics(&fresh.to_string()))
            }
            Action::TearDown => {
                let (erc20, erc721) = shooter.teardown();
                assert!(erc20.get("TPS").is_some());
                assert!(erc721.get("TPS").is_some());
                Event::TornDown
            }
        };
        feed(shooter, event);
        seen.steps += 1;
    }
    seen
}

#[test]
fn a_simulation_runs_to_its_end() {
    let mut shooter = shooter(2, 7);
    let seen = play(&mut shooter);
    assert_eq!(shooter.stage(), Stage::Finished);
    assert_eq!(seen.steps, 5 * 2 + 5027);
    assert_eq!(seen.artifacts, vec!["erc20.json", "erc721.json", "account.json"]);
    // One transaction per account, two contracts, a thousand calls of each token.
    let nonces: Vec<Felt> = (7..7 + 2 + 2002).map(felt).collect();
    assert_eq!(seen.nonces, nonces);
    assert_eq!(seen.counted, vec![47, 48, 49, 50, 47, 48, 49, 50]);

    let environment = shooter.environment().unwrap();
    assert_eq!(environment.erc20_class_hash, felt(1));
    assert_eq!(environment.erc721_class_hash, felt(2));
    assert_eq!(environment.account_class_hash, felt(3));
    assert_eq!(environment.accounts, vec![felt(1011), felt(1016)]);
    let args = constructor_args(felt(0xd0));
    assert_eq!(environment.erc20_address, calculate_contract_address(felt(1019), felt(2), &args));
    assert_eq!(environment.erc721_address, calculate_contract_address(felt(1022), felt(2), &args));

    // The accounts get a transfer each, at the address computed for them.
    let key = vec![deployer(&config(2)).public_key()];
    assert_eq!(seen.called[0], calculate_contract_address(felt(1010), felt(3), &key));
    assert_eq!(seen.called[1], calculate_contract_address(felt(1015), felt(3), &key));
    assert_eq!(seen.called.len(), 2002);
    assert!(seen.called[2..1002].iter().all(|to| *to == environment.erc20_address));
    assert!(seen.called[1002..].iter().all(|to| *to == environment.erc721_address));

    let report = shooter.into_report();
    assert!(report.chain_id.is_none());
    assert!(report.block_number.is_none());
    assert_eq!(report.reports.entries().len(), 2);
    assert!(report.metrics_of("erc20").is_some());
    assert!(report.metrics_of("erc721").is_some());
}

#[test]
fn transactions_are_checked_in_the_order_of_their_sending() {
    let mut shooter = shooter(0, 0);
    let seen = play(&mut shooter);
    assert_eq!(seen.steps, 5027);
    assert_eq!(seen.nonces.len(), 2002);
    // Two deployments, then the transfers and the mints.
    assert_eq!(seen.awaited.len(), 2002);
    let transfers: Vec<Felt> = (1015..2015).map(felt).collect();
    assert_eq!(seen.awaited[2..1002], transfers[..]);
    // Between them lie the checks, the blocks, the metrics and the token ids.
    let mints: Vec<Felt> = (0..1000).map(|i| felt(3022 + 2 * i)).collect();
    assert_eq!(seen.awaited[1002..], mints[..]);
}

#[test]
fn the_environment_comes_with_the_setup() {
    let shooter = shooter(1, 0);
    let error = shooter.environment().unwrap_err();
    assert_eq!(error, ShootError::EnvironmentNotPopulated);
    assert_eq!(
        error.message(),
        "Environment is not yet populated, you should run the setup function first"
    );
}

#[test]
fn a_chain_id_is_read_as_text_only_where_it_is_shown() {
    let mut shown = shooter(0, 0);
    feed(&mut shown, Event::ChainId(felt(0xff)));
    let error = refuse(&mut shown, Event::BlockNumber { number: 1, announced: true });
    assert!(matches!(error, ShootError::ChainIdNotText(_)));

    let mut hidden = shooter(0, 0);
    feed(&mut hidden, Event::ChainId(felt(0xff)));
    feed(&mut hidden, Event::BlockNumber { number: 1, announced: false });
    assert_eq!(hidden.stage(), Stage::ReadArtifact);
}

fn at_first_artifact(num_accounts: u32) -> GatlingShooter {
    let mut shooter = shooter(num_accounts, 0);
    feed(&mut shooter, Event::ChainId(felt(0x534e)));
    feed(&mut shooter, Event::BlockNumber { number: 1, announced: true });
    shooter
}

fn hash_by_hand(artifact: &[u8]) -> Felt {
    let class: starknet::core::types::contract::legacy::LegacyContractClass =
        serde_json::from_slice(artifact).unwrap();
    let bytes = class.class_hash().unwrap().to_bytes_be();
    Felt::from_parts(
        u128::from_be_bytes(bytes[..16].try_into().unwrap()),
        u128::from_be_bytes(bytes[16..].try_into().unwrap()),
    )
    .unwrap()
}

#[test]
fn artifacts_have_class_hashes() {
    let one = artifact("0x1", "pedersen");
    let two = artifact("0x2", "pedersen");
    assert_eq!(class_hash_of_artifact(&one).unwrap(), hash_by_hand(&one));
    assert_eq!(class_hash_of_artifact(&two).unwrap(), hash_by_hand(&two));
    assert_ne!(hash_by_hand(&one), hash_by_hand(&two));
}

#[test]
fn artifacts_can_be_malformed_or_unhashable() {
    let mut shooter = at_first_artifact(0);
    let error = refuse(&mut shooter, Event::Artifact(b"{}".to_vec()));
    assert!(matches!(error, ShootError::MalformedArtifact(_)));
    assert!(error.message().starts_with("missing field"));
    let builtin = "a".repeat(32);
    let error = refuse(&mut shooter, Event::Artifact(artifact("0x1", &builtin)));
    assert_eq!(error, ShootError::UnhashableArtifact("invalid builtin name".to_string()));
    assert_eq!(error.message(), "invalid builtin name");
}

#[test]
fn a_class_declared_before_keeps_the_hash_of_its_artifact() {
    let mut shooter = at_first_artifact(1);
    let mut hashes = Vec::new();
    for data in ["0x1", "0x2", "0x3"] {
        let artifact = artifact(data, "range_check");
        let hash = hash_by_hand(&artifact);
        hashes.push(hash);
        feed(&mut shooter, Event::Artifact(artifact));
        assert_eq!(
            shooter.pending().unwrap(),
            Action::Declare { class_hash: hash, block: BlockTag::Pending }
        );
        feed(&mut shooter, Event::Declaration(DeclareReply::ClassAlreadyDeclared));
    }
    assert!(matches!(
        shooter.pending().unwrap(),
        Action::PrepareAccount { class_hash, .. } if class_hash == hashes[2]
    ));
    assert_eq!(declared_class_hash(&DeclareReply::Declared(felt(9)), felt(8)), felt(9));
    assert_eq!(declared_class_hash(&DeclareReply::ClassAlreadyDeclared, felt(8)), felt(8));
}

#[test]
fn a_refused_declaration_is_not_survived() {
    let mut shooter = at_first_artifact(0);
    feed(&mut shooter, Event::Artifact(artifact("0x1", "pedersen")));
    let refused = Event::Declaration(DeclareReply::Refused("no".to_string()));
    assert!(!shooter.accepts(&refused));
    assert!(!shooter.accepts(&Event::Failed("no".to_string())));
}

fn at_transfers(nonce: u64) -> GatlingShooter {
    let mut shooter = shooter(0, nonce);
    feed(&mut shooter, Event::ChainId(felt(0x534e)));
    feed(&mut shooter, Event::BlockNumber { number: 1, announced: true });
    for _ in 0..3 {
        feed(&mut shooter, Event::Artifact(artifact("0x1", "pedersen")));
        feed(&mut shooter, Event::Declaration(DeclareReply::Declared(felt(1))));
    }
    for _ in 0..2 {
        feed(&mut shooter, Event::Random(felt(4)));
        feed(&mut shooter, Event::Sent { transaction: felt(5) });
        feed(&mut shooter, Event::Confirmed);
    }
    shooter
}

#[test]
fn a_failed_transfer_keeps_its_nonce() {
    let mut shooter = at_transfers(10);
    assert_eq!(shooter.stage(), Stage::Transfer);
    let error = refuse(&mut shooter, Event::Failed("out of gas".to_string()));
    assert_eq!(error, ShootError::Remote("out of gas".to_string()));
    assert_eq!(error.message(), "out of gas");
    for nonce in 12..15 {
        match shooter.pending() {
            Some(Action::Invoke(invocation)) => assert_eq!(invocation.nonce, felt(nonce)),
            _ => panic!("a transfer is due"),
        }
        feed(&mut shooter, Event::Sent { transaction: felt(nonce) });
    }
}

#[test]
fn only_replies_to_the_pending_action_are_accepted() {
    let mut shooter = shooter(0, 0);
    assert!(!shooter.accepts(&Event::Confirmed));
    assert!(!shooter.accepts(&Event::TornDown));
    assert!(!shooter.accepts(&Event::BlockNumber { number: 9, announced: true }));
    assert!(shooter.accepts(&Event::Failed("down".to_string())));
    play(&mut shooter);
    assert!(!shooter.accepts(&Event::TornDown));
    assert!(!shooter.accepts(&Event::Failed("down".to_string())));
}

#[test]
fn the_last_four_blocks_are_counted() {
    let mut shooter = at_transfers(0);
    for i in 0..1000 {
        feed(&mut shooter, Event::Sent { transaction: felt(i) });
    }
    assert!(!shooter.accepts(&Event::Failed("reverted".to_string())));
    for _ in 0..1000 {
        feed(&mut shooter, Event::Confirmed);
    }
    let stage = Stage::LatestBlock { token: Token::Erc20, num_blocks: NUM_BLOCKS };
    assert_eq!(shooter.stage(), stage);
    // Blocks 0 to 3 are just enough.
    assert!(!shooter.accepts(&Event::BlockNumber { number: 2, announced: true }));
    assert!(shooter.accepts(&Event::BlockNumber { number: 3, announced: true }));
    feed(&mut shooter, Event::BlockNumber { number: 10, announced: true });
    for (block, count) in [(7, 2), (8, 3), (9, 4), (10, 5)] {
        assert_eq!(shooter.pending(), Some(Action::CountTransactions { block }));
        feed(&mut shooter, Event::TransactionCount(count));
    }
    assert_eq!(shooter.pending(), Some(Action::ComputeMetrics));
    let mut counts: Vec<(u64, u64)> =
        shooter.num_tx_per_block().iter().map(|(block, count)| (*block, *count)).collect();
    counts.sort();
    assert_eq!(counts, vec![(7, 2), (8, 3), (9, 4), (10, 5)]);
    assert_eq!(Token::Erc20.name(), "erc20");
    assert_eq!(Token::Erc721.name(), "erc721");
}

#[test]
fn the_first_four_blocks_can_be_the_last() {
    let mut shooter = at_transfers(0);
    for i in 0..1000 {
        feed(&mut shooter, Event::Sent { transaction: felt(i) });
    }
    for _ in 0..1000 {
        feed(&mut shooter, Event::Confirmed);
    }
    feed(&mut shooter, Event::BlockNumber { number: 3, announced: false });
    for block in 0..4 {
        assert_eq!(shooter.pending(), Some(Action::CountTransactions { block }));
        feed(&mut shooter, Event::TransactionCount(1));
    }
    assert_eq!(shooter.pending(), Some(Action::ComputeMetrics));
}

#[test]
fn nothing_is_sent_to_a_token_before_the_setup_is_done() {
    let mut shooter = shooter(0, 5);
    while shooter.environment().is_err() {
        let event = match shooter.pending().unwrap() {
            Action::ReadChainId => Event::ChainId(felt(0x534e)),
            Action::ReadBlockNumber => Event::BlockNumber { number: 1, announced: true },
            Action::ReadArtifact { .. } => Event::Artifact(artifact("0x1", "pedersen")),
            Action::Declare { .. } => Event::Declaration(DeclareReply::ClassAlreadyDeclared),
            Action::DrawRandom => Event::Random(felt(4)),
            Action::Deploy(_) => Event::Sent { transaction: felt(5) },
            Action::AwaitTransaction { .. } => Event::Confirmed,
            other => panic!("{other:?} is not part of a setup without accounts"),
        };
        feed(&mut shooter, event);
    }
    assert_eq!(shooter.stage(), Stage::Transfer);
}
