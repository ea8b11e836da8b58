//! What the setup phase leaves behind.
use crate::felt::Felt;
use vstd::prelude::*;

verus! {

/// The classes, contracts and accounts that the setup phase has put on the chain.
#[derive(Debug)]
pub struct GatlingEnvironment {
    pub erc20_class_hash: Felt,
    pub erc721_class_hash: Felt,
    pub account_class_hash: Felt,
    pub erc20_address: Felt,
    pub erc721_address: Felt,
    pub accounts: Vec<Felt>,
}

#[verifier::ext_equal]
pub struct EnvironmentView {
    pub erc20_class_hash: Felt,
    pub erc721_class_hash: Felt,
    pub account_class_hash: Felt,
    pub erc20_address: Felt,
    pub erc721_address: Felt,
    pub accounts: Seq<Felt>,
}

impl View for GatlingEnvironment {
    type V = EnvironmentView;

    open spec fn view(&self) -> EnvironmentView {
        EnvironmentView {
            erc20_class_hash: self.erc20_class_hash,
            erc721_class_hash: self.erc721_class_hash,
            account_class_hash: self.account_class_hash,
            erc20_address: self.erc20_address,
            erc721_address: self.erc721_address,
            accounts: self.accounts@,
        }
    }
}

/// A copy of a list of elements.
pub(crate) fn copy_felts(felts: &Vec<Felt>) -> (copy: Vec<Felt>)
    ensures
        copy@ == felts@,
{
    let copy = felts.clone();
    assert(copy@ =~= felts@);
    copy
}

impl Clone for GatlingEnvironment {
    fn clone(&self) -> (copy: GatlingEnvironment)
        ensures
            copy@ == self@,
    {
        GatlingEnvironment {
            erc20_class_hash: self.erc20_class_hash,
            erc721_class_hash: self.erc721_class_hash,
            account_class_hash: self.account_class_hash,
            erc20_address: self.erc20_address,
            erc721_address: self.erc721_address,
            accounts: copy_felts(&self.accounts),
        }
    }
}

/// What is seen of an environment is what it holds.
pub proof fn law_environment_as_seen(environment: GatlingEnvironment)
    ensures
        environment@.erc20_class_hash == environment.erc20_class_hash,
        environment@.erc721_class_hash == environment.erc721_class_hash,
        environment@.account_class_hash == environment.account_class_hash,
        environment@.erc20_address == environment.erc20_address,
        environment@.erc721_address == environment.erc721_address,
        environment@.accounts == environment.accounts@,
{
}

} // verus!
