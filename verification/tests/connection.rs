use gatling::config::{
    DeployerConfig, GatlingConfig, RpcConfig, SetupConfig, SimulationConfig,
};
use gatling::connection::{chain_name, deployer, rpc_url};
use gatling::error::ShootError;
use gatling::felt::Felt;
use gatling::shooter::GatlingShooter;

fn config(url: &str, address: &str, signing_key: &str) -> GatlingConfig {
    GatlingConfig {
        rpc: RpcConfig { url: url.to_string() },
        deployer: DeployerConfig {
            address: address.to_string(),
            signing_key: signing_key.to_string(),
        },
        simulation: SimulationConfig {
            fail_fast: true,
            setup: SetupConfig {
                erc20_contract_path: "erc20.json".to_string(),
                erc721_contract_path: "erc721.json".to_string(),
                account_contract_path: "account.json".to_string(),
                num_accounts: 1,
            },
        },
    }
}

fn address_of(text: &str) -> Felt {
    deployer(&config("http://localhost:9944", text, "0x1")).address
}

#[test]
fn elements_stay_below_the_order_of_the_field() {
    let top = 0x0800_0000_0000_0011_0000_0000_0000_0000;
    assert_eq!(Felt::from_parts(top, 0).unwrap().parts(), (top, 0));
    assert_eq!(Felt::from_parts(top - 1, u128::MAX).unwrap().parts(), (top - 1, u128::MAX));
    assert!(Felt::from_parts(top, 1).is_none());
    assert!(Felt::from_parts(u128::MAX, 0).is_none());
    assert_eq!(Felt::from_u64(7).parts(), (0, 7));
    assert_eq!(Felt::from_u128(u128::MAX).parts(), (0, u128::MAX));
}

#[test]
fn configured_elements_are_hexadecimal() {
    assert_eq!(address_of("0x1f"), Felt::from_u64(31));
    assert_eq!(address_of("1F"), Felt::from_u64(31));
    assert_eq!(address_of("0x0x10"), Felt::from_u64(16));
    assert_eq!(address_of("0x"), Felt::from_u64(0));
    assert_eq!(address_of(""), Felt::from_u64(0));
    let long = "0x0000000000000000000000000000000300000000000000000000000000000005";
    assert_eq!(address_of(long).parts(), (3, 5));
}

#[test]
fn what_spells_no_element_counts_as_zero() {
    let zero = Felt::from_u64(0);
    assert_eq!(address_of("0X1f"), zero);
    assert_eq!(address_of("xyz"), zero);
    assert_eq!(address_of("0x-1"), zero);
    assert_eq!(address_of(&"1".repeat(65)), zero);
    // The order of the field, and one less.
    let order = "0x0800000000000011000000000000000000000000000000000000000000000001";
    assert_eq!(address_of(order), zero);
    let below = "0x0800000000000011000000000000000000000000000000000000000000000000";
    assert_eq!(address_of(below).parts(), (0x0800_0000_0000_0011_0000_0000_0000_0000, 0));
}

#[test]
fn the_deployer_signs_for_the_test_network() {
    let deployer = deployer(&config("http://localhost:9944", "0xaa", "0xbb"));
    assert_eq!(deployer.address, Felt::from_u64(0xaa));
    assert_eq!(deployer.signing_key, Felt::from_u64(0xbb));
    let bytes = starknet::core::chain_id::TESTNET.to_bytes_be();
    let (hi, lo) = deployer.chain_id.parts();
    assert_eq!([hi.to_be_bytes(), lo.to_be_bytes()].concat(), bytes.to_vec());
}

#[test]
fn a_signing_key_has_a_public_key() {
    let secret = "0x03c1e9550e66958296d11b60f8e8e7a7ad990d07fa65d5f7652c4a6c87d4e3cc";
    let public = "0x077a3b314db07c45076d11f62b6f9e748a39790441823307743cf00d6597ea43";
    let deployer = deployer(&config("http://localhost:9944", "0xaa", secret));
    assert_eq!(deployer.public_key(), address_of(public));
}

#[test]
fn urls_are_brought_into_their_normal_form() {
    let url = rpc_url(&config("HTTP://LocalHost:9944", "", "")).unwrap();
    assert_eq!(url, "http://localhost:9944/");
}

#[test]
fn a_node_needs_a_url() {
    for text in ["", "localhost", "http://"] {
        let bad = config(text, "", "");
        let reason = url::Url::parse(text).unwrap_err().to_string();
        let error = rpc_url(&bad).unwrap_err();
        assert_eq!(error, ShootError::InvalidUrl(reason.clone()));
        assert_eq!(error.message(), reason);
        assert_eq!(GatlingShooter::new(bad, Felt::from_u64(0)).err(), Some(error));
    }
    let error = rpc_url(&config("localhost", "", "")).unwrap_err();
    assert_eq!(error.message(), "relative URL without a base");
}

#[test]
fn chain_ids_spell_names() {
    assert_eq!(chain_name(Felt::from_u128(0x534e5f474f45524c49)).unwrap(), "SN_GOERLI");
    assert_eq!(chain_name(Felt::from_u64(0)).unwrap(), "");
    // A NUL inside a name stays, and so does a letter beyond ASCII.
    assert_eq!(chain_name(Felt::from_u64(0x41_00_42)).unwrap(), "A\0B");
    assert_eq!(chain_name(Felt::from_u64(0xc3a9)).unwrap(), "\u{e9}");
}

#[test]
fn some_chain_ids_spell_nothing() {
    // The reason counts the zero bytes before the letter.
    let reason = "invalid utf-8 sequence of 1 bytes from index 31".to_string();
    let error = chain_name(Felt::from_u64(0xff)).unwrap_err();
    assert_eq!(error, ShootError::ChainIdNotText(reason.clone()));
    assert_eq!(error.message(), reason);
    let reason = "incomplete utf-8 byte sequence from index 31".to_string();
    let error = chain_name(Felt::from_u64(0xc3)).unwrap_err();
    assert_eq!(error, ShootError::ChainIdNotText(reason));
}
