//! The transactions that a simulation sends.
use crate::bindings::{
    contract_address, contract_address_of, felt_sum, selector_from_name, selector_of,
};
use crate::felt::Felt;
use vstd::prelude::*;

verus! {

/// A call of one entry point of one contract.
#[derive(Clone, Debug, PartialEq, Eq)]
pub struct Call {
    pub to: Felt,
    pub selector: Felt,
    pub calldata: Vec<Felt>,
}

#[verifier::ext_equal]
pub struct CallView {
    pub to: Felt,
    pub selector: Felt,
    pub calldata: Seq<Felt>,
}

impl View for Call {
    type V = CallView;

    open spec fn view(&self) -> CallView {
        CallView { to: self.to, selector: self.selector, calldata: self.calldata@ }
    }
}

/// A transaction of the deployer's account that makes one call.
#[derive(Clone, Debug, PartialEq, Eq)]
pub struct Invocation {
    pub call: Call,
    pub max_fee: Felt,
    pub nonce: Felt,
}

#[verifier::ext_equal]
pub struct InvocationView {
    pub call: CallView,
    pub max_fee: Felt,
    pub nonce: Felt,
}

impl View for Invocation {
    type V = InvocationView;

    open spec fn view(&self) -> InvocationView {
        InvocationView { call: self.call@, max_fee: self.max_fee, nonce: self.nonce }
    }
}

/// A transaction of the deployer's account that deploys a contract through the
/// universal deployer.
#[derive(Clone, Debug, PartialEq, Eq)]
pub struct Deployment {
    pub class_hash: Felt,
    pub salt: Felt,
    pub constructor_args: Vec<Felt>,
    /// Whether the address depends on who deploys.
    pub unique: bool,
    pub max_fee: Felt,
    pub nonce: Felt,
}

#[verifier::ext_equal]
pub struct DeploymentView {
    pub class_hash: Felt,
    pub salt: Felt,
    pub constructor_args: Seq<Felt>,
    pub unique: bool,
    pub max_fee: Felt,
    pub nonce: Felt,
}

impl View for Deployment {
    type V = DeploymentView;

    open spec fn view(&self) -> DeploymentView {
        DeploymentView {
            class_hash: self.class_hash,
            salt: self.salt,
            constructor_args: self.constructor_args@,
            unique: self.unique,
            max_fee: self.max_fee,
            nonce: self.nonce,
        }
    }
}

/// The most that a transfer or a mint may cost.
pub open spec fn invocation_fee() -> Felt {
    Felt::of(0xfffffffffff)
}

/// The most that the deployment of a contract may cost: one more.
pub open spec fn deployment_fee() -> Felt {
    Felt::of(0x100000000000)
}

/// The call that transfers a fixed amount of the token at `contract` to a fixed
/// recipient.
pub open spec fn transfer_call_to(contract: Felt) -> CallView {
    CallView {
        to: contract,
        selector: Felt::of(selector_of("transfer"@)),
        calldata: seq![Felt::of(2), Felt::of(0x1000000), Felt::of(0)],
    }
}

/// The call that mints `token_id` of the token at `contract` for a fixed
/// recipient.
pub open spec fn mint_call_to(token_id: Felt, contract: Felt) -> CallView {
    CallView {
        to: contract,
        selector: Felt::of(selector_of("mint"@)),
        calldata: seq![Felt::of(2), token_id, Felt::of(0)],
    }
}

/// The constructor arguments of both tokens: two constants and the owner.
pub open spec fn token_args(owner: Felt) -> Seq<Felt> {
    seq![Felt::of(0xa1), Felt::of(0xa2), owner]
}

/// Where a contract of class `class_hash` lands that is deployed with `salt`
/// and `args` in a way that does not depend on who deploys it.
pub open spec fn plain_address(salt: Felt, class_hash: Felt, args: Seq<Felt>) -> Felt {
    Felt::of(
        contract_address_of(
            salt.value(),
            class_hash.value(),
            args.map_values(|arg: Felt| arg.value()),
            0,
        ),
    )
}

/// The most that a transfer or a mint may cost.
pub fn max_fee() -> (fee: Felt)
    ensures
        fee == invocation_fee(),
{
    Felt::from_u64(0xfffffffffff)
}

/// The most that the deployment of a contract may cost.
pub fn deploy_max_fee() -> (fee: Felt)
    ensures
        fee == deployment_fee(),
{
    broadcast use Felt::lemma_value_of;

    felt_sum(max_fee(), Felt::from_u64(1))
}

/// The nonce after `nonce`.
pub fn next_nonce(nonce: Felt) -> (next: Felt)
    ensures
        next == nonce.plus(Felt::of(1)),
{
    felt_sum(nonce, Felt::from_u64(1))
}

/// The call that transfers a fixed amount of the token at `contract_address`.
pub fn transfer_call(contract_address: Felt) -> (call: Call)
    ensures
        call@ == transfer_call_to(contract_address),
{
    broadcast use Felt::lemma_of_value;

    proof {
        reveal_strlit("transfer");
    }
    let mut calldata: Vec<Felt> = Vec::new();
    calldata.push(Felt::from_u64(2));
    calldata.push(Felt::from_u64(0x1000000));
    calldata.push(Felt::from_u64(0));
    Call { to: contract_address, selector: selector_from_name("transfer"), calldata }
}

/// The call that mints `token_id` of the token at `contract_address`.
pub fn mint_call(token_id: Felt, contract_address: Felt) -> (call: Call)
    ensures
        call@ == mint_call_to(token_id, contract_address),
{
    broadcast use Felt::lemma_of_value;

    proof {
        reveal_strlit("mint");
    }
    let mut calldata: Vec<Felt> = Vec::new();
    calldata.push(Felt::from_u64(2));
    calldata.push(token_id);
    calldata.push(Felt::from_u64(0));
    Call { to: contract_address, selector: selector_from_name("mint"), calldata }
}

/// The constructor arguments of both tokens.
pub fn constructor_args(owner: Felt) -> (args: Vec<Felt>)
    ensures
        args@ == token_args(owner),
{
    let mut args: Vec<Felt> = Vec::new();
    args.push(Felt::from_u64(0xa1));
    args.push(Felt::from_u64(0xa2));
    args.push(owner);
    args
}

/// Where a contract lands that is deployed in a way that does not depend on who
/// deploys it.
pub fn calculate_contract_address(
    salt: Felt,
    class_hash: Felt,
    constructor_args: &Vec<Felt>,
) -> (address: Felt)
    ensures
        address == plain_address(salt, class_hash, constructor_args@),
{
    broadcast use Felt::lemma_of_value;

    contract_address(salt, class_hash, constructor_args, Felt::from_u64(0))
}

/// The fee limits, as numbers: a deployment may cost one more than a call.
pub proof fn law_fees()
    ensures
        invocation_fee().value() == 0xfffffffffff,
        deployment_fee().value() == invocation_fee().value() + 1,
{
    broadcast use Felt::lemma_value_of;

}

/// What the calls hold: a transfer names a recipient and an amount, a mint the
/// same recipient and the token id.
pub proof fn law_calls(token_id: Felt, contract: Felt)
    ensures
        transfer_call_to(contract).to == contract,
        transfer_call_to(contract).selector == Felt::of(selector_of("transfer"@)),
        transfer_call_to(contract).calldata == seq![Felt::of(2), Felt::of(0x1000000), Felt::of(0)],
        mint_call_to(token_id, contract).to == contract,
        mint_call_to(token_id, contract).selector == Felt::of(selector_of("mint"@)),
        mint_call_to(token_id, contract).calldata == seq![Felt::of(2), token_id, Felt::of(0)],
{
}

/// A token is constructed with two constants and its owner, in this order.
pub proof fn law_token_arguments(owner: Felt)
    ensures
        token_args(owner).len() == 3,
        token_args(owner)[0].value() == 0xa1,
        token_args(owner)[1].value() == 0xa2,
        token_args(owner)[2] == owner,
        token_args(owner) == seq![Felt::of(0xa1), Felt::of(0xa2), owner],
{
    broadcast use Felt::lemma_value_of;

}

/// The address of a contract is that of its whole salt, its class and its
/// arguments in their order, with nobody as the deployer.
pub proof fn law_contract_address(
    salt: Felt,
    class_hash: Felt,
    args: Seq<Felt>,
    numbers: Seq<nat>,
)
    requires
        numbers.len() == args.len(),
        forall|i: int| 0 <= i < args.len() ==> #[trigger] numbers[i] == args[i].value(),
    ensures
        plain_address(salt, class_hash, args) == Felt::of(
            contract_address_of(salt.value(), class_hash.value(), numbers, 0),
        ),
{
    assert(args.map_values(|arg: Felt| arg.value()) =~= numbers);
}

/// What is seen of a call, an invocation and a deployment is what they hold.
pub proof fn law_requests_as_seen(call: Call, invocation: Invocation, deployment: Deployment)
    ensures
        call@.to == call.to,
        call@.selector == call.selector,
        call@.calldata == call.calldata@,
        invocation@.call == invocation.call@,
        invocation@.max_fee == invocation.max_fee,
        invocation@.nonce == invocation.nonce,
        deployment@.class_hash == deployment.class_hash,
        deployment@.salt == deployment.salt,
        deployment@.constructor_args == deployment.constructor_args@,
        deployment@.unique == deployment.unique,
        deployment@.max_fee == deployment.max_fee,
        deployment@.nonce == deployment.nonce,
{
}

} // verus!
