//! Who talks to which node.
use crate::bindings::{
    bytes_be, felt_bytes, felt_from_hex, hex_felt, parse_url, public_key_of, url_of, utf8_error_of,
    utf8_text, verifying_key,
};
use crate::config::GatlingConfig;
use crate::error::{ErrorView, ShootError};
use crate::felt::Felt;
use vstd::prelude::*;
use vstd::string::StrSliceExecFns;
use vstd::utf8::{decode_utf8, valid_utf8};

verus! {

/// The account that sends the transactions of a simulation.
#[derive(Clone, Copy, Debug, PartialEq, Eq)]
pub struct Deployer {
    /// The scalar that signs the deployer's transactions.
    pub signing_key: Felt,
    /// The deployer's account.
    pub address: Felt,
    /// The chain that the deployer signs for.
    pub chain_id: Felt,
}

impl Deployer {
    /// The public key that belongs to the signing key.
    pub open spec fn spec_public_key(self) -> Felt {
        Felt::of(public_key_of(self.signing_key.value()))
    }

    /// The public key that belongs to the signing key. It owns the accounts that
    /// a simulation creates.
    pub fn public_key(&self) -> (key: Felt)
        ensures
            key == self.spec_public_key(),
    {
        broadcast use Felt::lemma_of_value;

        verifying_key(self.signing_key)
    }
}

/// The element that a configured text spells; zero where it spells none.
pub open spec fn felt_or_zero(text: Seq<char>) -> Felt {
    match hex_felt(text) {
        Some(felt) => felt,
        None => Felt::of(0),
    }
}

/// The id of the test network: the text `SN_GOERLI` read as a number.
pub open spec fn testnet_id() -> Felt {
    Felt::of(0x534e5f474f45524c49)
}

/// The configured deployer. A key or an address that spells no field element
/// counts as zero.
pub open spec fn configured_deployer(config: GatlingConfig) -> Deployer {
    Deployer {
        signing_key: felt_or_zero(config.deployer.signing_key@),
        address: felt_or_zero(config.deployer.address@),
        chain_id: testnet_id(),
    }
}

/// The node's URL in its normal form, if the configured one is an absolute URL.
pub fn rpc_url(config: &GatlingConfig) -> (url: Result<String, ShootError>)
    ensures
        match url_of(config.rpc.url@) {
            Ok(normal) => url matches Ok(u) && u@ == normal,
            Err(reason) => url matches Err(e) && e@ == ErrorView::InvalidUrl(reason),
        },
{
    match parse_url(config.rpc.url.as_str()) {
        Ok(url) => Ok(url),
        Err(reason) => Err(ShootError::InvalidUrl(reason)),
    }
}

fn parse_felt_or_zero(text: &String) -> (felt: Felt)
    ensures
        felt == felt_or_zero(text@),
{
    match felt_from_hex(text.as_str()) {
        Some(felt) => felt,
        None => Felt::from_u64(0),
    }
}

/// The configured deployer. A key or an address that spells no field element
/// counts as zero.
pub fn deployer(config: &GatlingConfig) -> (deployer: Deployer)
    ensures
        deployer == configured_deployer(*config),
{
    Deployer {
        signing_key: parse_felt_or_zero(&config.deployer.signing_key),
        address: parse_felt_or_zero(&config.deployer.address),
        chain_id: Felt::from_u128(0x534e5f474f45524c49),
    }
}

/// `text` from its first character other than NUL on.
pub open spec fn trim_nul(text: Seq<char>) -> Seq<char>
    decreases text.len(),
{
    if text.len() > 0 && text[0] == '\0' {
        trim_nul(text.skip(1))
    } else {
        text
    }
}

/// `text` from its first character other than NUL on.
fn trim_leading_nul(text: &str) -> (rest: String)
    ensures
        rest@ == trim_nul(text@),
{
    let len: usize = text.unicode_len();
    let mut start: usize = 0;
    assert(text@.skip(0) =~= text@);
    while start < len && text.get_char(start) == '\0'
        invariant
            start <= len,
            len == text@.len(),
            trim_nul(text@) == trim_nul(text@.skip(start as int)),
        decreases len - start,
    {
        assert(text@.skip(start as int).skip(1) =~= text@.skip(start + 1));
        start = start + 1;
    }
    assert(text@.subrange(start as int, len as int) =~= text@.skip(start as int));
    text.substring_char(start, len).to_owned()
}

/// The text that a chain id spells, or why its bytes are not UTF-8.
pub open spec fn chain_text(chain_id: Felt) -> Result<Seq<char>, Seq<char>> {
    let bytes = bytes_be(chain_id.value());
    if valid_utf8(bytes) {
        Ok(trim_nul(decode_utf8(bytes)))
    } else {
        Err(utf8_error_of(bytes))
    }
}

/// The name of the chain with this id.
pub fn chain_name(chain_id: Felt) -> (name: Result<String, ShootError>)
    ensures
        match chain_text(chain_id) {
            Ok(text) => name matches Ok(n) && n@ == text,
            Err(reason) => name matches Err(e) && e@ == ErrorView::ChainIdNotText(reason),
        },
{
    let bytes = felt_bytes(chain_id);
    match utf8_text(bytes.as_slice()) {
        Ok(text) => Ok(trim_leading_nul(text.as_str())),
        Err(reason) => Err(ShootError::ChainIdNotText(reason)),
    }
}

proof fn lemma_trim_nul(text: Seq<char>)
    ensures
        trim_nul(text).len() <= text.len(),
        text.skip(text.len() - trim_nul(text).len()) == trim_nul(text),
        forall|i: int| 0 <= i < text.len() - trim_nul(text).len() ==> #[trigger] text[i] == '\0',
        trim_nul(text).len() > 0 ==> trim_nul(text)[0] != '\0',
    decreases text.len(),
{
    if text.len() > 0 && text[0] == '\0' {
        let rest = text.skip(1);
        lemma_trim_nul(rest);
        let k = text.len() - trim_nul(text).len();
        assert(text.skip(k) =~= rest.skip(k - 1));
        assert forall|i: int| 0 <= i < k implies #[trigger] text[i] == '\0' by {
            if i > 0 {
                assert(rest[i - 1] == text[i]);
            }
        }
    } else {
        assert(text.skip(0) =~= text);
    }
}

/// The text of a chain id is what its 32 bytes encode, without the NULs at the
/// start and without anything else: there is a text if and only if the bytes are
/// UTF-8, and otherwise the reason why they are not.
pub proof fn law_chain_text(chain_id: Felt)
    ensures
        ({
            let bytes = bytes_be(chain_id.value());
            &&& chain_text(chain_id) is Ok <==> valid_utf8(bytes)
            &&& chain_text(chain_id) matches Err(reason) ==> reason == utf8_error_of(bytes)
            &&& chain_text(chain_id) matches Ok(text) ==> {
                let whole = decode_utf8(bytes);
                &&& text.len() <= whole.len()
                &&& whole.skip(whole.len() - text.len()) == text
                &&& forall|i: int| 0 <= i < whole.len() - text.len() ==> #[trigger] whole[i] == '\0'
                &&& text.len() > 0 ==> text[0] != '\0'
            }
        }),
{
    lemma_trim_nul(decode_utf8(bytes_be(chain_id.value())));
}

/// The deployer has the configured key and the configured address, each zero
/// where it spells no field element, and signs for the chain `SN_GOERLI`.
pub proof fn law_configured_deployer(config: GatlingConfig)
    ensures
        ({
            let deployer = configured_deployer(config);
            let key = hex_felt(config.deployer.signing_key@);
            let address = hex_felt(config.deployer.address@);
            &&& key matches Some(felt) ==> deployer.signing_key == felt
            &&& key is None ==> deployer.signing_key.value() == 0
            &&& address matches Some(felt) ==> deployer.address == felt
            &&& address is None ==> deployer.address.value() == 0
            &&& deployer.chain_id.value() == 0x534e5f474f45524c49
        }),
{
    broadcast use Felt::lemma_value_of;

}

/// The public key of a deployer is that of its signing key.
pub proof fn law_public_key(deployer: Deployer)
    ensures
        deployer.spec_public_key() == Felt::of(public_key_of(deployer.signing_key.value())),
{
}

} // verus!
