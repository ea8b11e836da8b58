use gatling::felt::Felt;
use gatling::requests::{
    calculate_contract_address, constructor_args, deploy_max_fee, max_fee, mint_call, next_nonce,
    transfer_call,
};

fn felt(hex: &str) -> Felt {
    let bytes = starknet::core::types::FieldElement::from_hex_be(hex).unwrap().to_bytes_be();
    Felt::from_parts(
        u128::from_be_bytes(bytes[..16].try_into().unwrap()),
        u128::from_be_bytes(bytes[16..].try_into().unwrap()),
    )
    .unwrap()
}

#[test]
fn a_transfer_calls_transfer() {
    let call = transfer_call(felt("0xabc"));
    assert_eq!(call.to, felt("0xabc"));
    assert_eq!(
        call.selector,
        felt("0x83afd3f4caedc6eebf44246fe54e38c95e3179a5ec9ea81740eca5b482d12e")
    );
    assert_eq!(call.calldata, vec![felt("0x2"), felt("0x1000000"), felt("0x0")]);
}

#[test]
fn a_mint_calls_mint() {
    let call = mint_call(felt("0x77"), felt("0xabc"));
    assert_eq!(call.to, felt("0xabc"));
    assert_eq!(
        call.selector,
        felt("0x2f0b3c5710379609eb5495f1ecd348cb28167711b73609fe565a72734550354")
    );
    assert_eq!(call.calldata, vec![felt("0x2"), felt("0x77"), felt("0x0")]);
}

#[test]
fn a_deployment_may_cost_one_more() {
    assert_eq!(max_fee(), felt("0xfffffffffff"));
    assert_eq!(deploy_max_fee(), felt("0x100000000000"));
}

#[test]
fn nonces_follow_each_other_in_the_field() {
    assert_eq!(next_nonce(Felt::from_u64(41)), Felt::from_u64(42));
    assert_eq!(next_nonce(Felt::from_u128(u128::MAX)).parts(), (1, 0));
    let last = Felt::from_parts(0x0800_0000_0000_0011_0000_0000_0000_0000, 0).unwrap();
    assert_eq!(next_nonce(last), Felt::from_u64(0));
}

#[test]
fn tokens_are_constructed_for_their_owner() {
    assert_eq!(constructor_args(felt("0x5")), vec![felt("0xa1"), felt("0xa2"), felt("0x5")]);
}

#[test]
fn addresses_follow_from_salt_class_and_arguments() {
    let address = calculate_contract_address(
        felt("0x06df0e9a9842d97ff3f4c6de7494d6e69d0a107a72150f9c53d59515b91ed9cb"),
        felt("0x0562fc1d911530d18a86ea3ef4be50018923898d3c573288c5abb9c2344459ed"),
        &vec![felt("0x1234")],
    );
    assert_eq!(
        address,
        felt("0x0288e5952d2f2f0e897ea0c5401c6e9f584a89eebfb08b5b26f090a8bbf67eb6")
    );
    let address = calculate_contract_address(
        felt("0x0018a7a329d1d85b621350f2b5fc9c64b2e57dfe708525f0aff2c90de1e5b9c8"),
        felt("0x0750cd490a7cd1572411169eaa8be292325990d33c5d4733655fe6b926985062"),
        &vec![felt("0x1")],
    );
    assert_eq!(
        address,
        felt("0x00da27ef7c3869c3a6cc6a0f7bf07a51c3e590825adba8a51cae27d815839eec")
    );
}
