//! The calls into other crates and into std. What each contract claims of the
//! function behind it is not proved here.
use crate::felt::{prime, Felt};
use vstd::arithmetic::power::pow;
use vstd::prelude::*;
use vstd::utf8::{decode_utf8, is_ascii_chars, valid_utf8};

verus! {

/// What a hexadecimal text says once every leading `0x` is gone.
pub open spec fn strip_0x(text: Seq<char>) -> Seq<char>
    decreases text.len(),
{
    if text.len() >= 2 && text[0] == '0' && text[1] == 'x' {
        strip_0x(text.skip(2))
    } else {
        text
    }
}

pub open spec fn is_hex_digit(c: char) -> bool {
    '0' <= c <= '9' || 'a' <= c <= 'f' || 'A' <= c <= 'F'
}

pub open spec fn hex_digit_value(c: char) -> nat {
    if c <= '9' {
        (c as int - '0' as int) as nat
    } else if c <= 'F' {
        (c as int - 'A' as int + 10) as nat
    } else {
        (c as int - 'a' as int + 10) as nat
    }
}

/// The number that hexadecimal digits spell, the most significant first.
pub open spec fn hex_value(digits: Seq<char>) -> nat
    decreases digits.len(),
{
    if digits.len() == 0 {
        0
    } else {
        hex_value(digits.drop_last()) * 16 + hex_digit_value(digits.last())
    }
}

/// The field element that a hexadecimal text spells, if it spells one: at most
/// 64 digits, in either case, after any number of `0x`, of a number below the
/// field's order. The empty text spells zero.
pub open spec fn hex_felt(text: Seq<char>) -> Option<Felt> {
    let digits = strip_0x(text);
    if digits.len() <= 64 && (forall|i: int|
        0 <= i < digits.len() ==> is_hex_digit(#[trigger] digits[i])) && hex_value(digits)
        < prime() {
        Some(Felt::of(hex_value(digits)))
    } else {
        None
    }
}

/// The 32 digits of `value` in base 256, the most significant first.
pub open spec fn bytes_be(value: nat) -> Seq<u8> {
    Seq::new(32, |i: int| (value as int / pow(256, (31 - i) as nat) % 256) as u8)
}

/// The selector of the entry point called `name`.
pub uninterp spec fn selector_of(name: Seq<char>) -> nat;

/// The address of the contract of class `class_hash` that `deployer` deploys
/// with `salt` and the constructor arguments `args`.
pub uninterp spec fn contract_address_of(
    salt: nat,
    class_hash: nat,
    args: Seq<nat>,
    deployer: nat,
) -> nat;

/// The public key that belongs to the secret scalar `secret`.
pub uninterp spec fn public_key_of(secret: nat) -> nat;

/// Whether `artifact` is the JSON of a legacy contract class, or why it is not.
pub uninterp spec fn artifact_parse(artifact: Seq<u8>) -> Result<(), Seq<char>>;

/// The hash of the legacy contract class whose JSON is `artifact`, or why it has
/// none.
pub uninterp spec fn artifact_class_hash(artifact: Seq<u8>) -> Result<nat, Seq<char>>;

/// The serialization of the absolute URL that `text` spells, or why it spells
/// none.
pub uninterp spec fn url_of(text: Seq<char>) -> Result<Seq<char>, Seq<char>>;

/// Why `bytes` are not UTF-8.
pub uninterp spec fn utf8_error_of(bytes: Seq<u8>) -> Seq<char>;

/// Calls the `Add` of `starknet`'s `FieldElement`. Trusted: the sum is the sum
/// of the two numbers, reduced by the field's order.
#[verifier::external_body]
pub(crate) fn felt_sum(left: Felt, right: Felt) -> (sum: Felt)
    ensures
        sum == left.plus(right),
{
    let [a, b] = [left, right].map(|f| [f.hi.to_be_bytes(), f.lo.to_be_bytes()].concat());
    let bytes = (starknet::core::types::FieldElement::from_byte_slice_be(&a).unwrap()
        + starknet::core::types::FieldElement::from_byte_slice_be(&b).unwrap()).to_bytes_be();
    Felt {
        hi: u128::from_be_bytes(bytes[..16].try_into().unwrap()),
        lo: u128::from_be_bytes(bytes[16..].try_into().unwrap()),
    }
}

/// Calls `FieldElement::from_hex_be`. Trusted: it succeeds on the texts that
/// spell a field element, as `hex_felt` says, with the element they spell.
#[verifier::external_body]
pub(crate) fn felt_from_hex(text: &str) -> (felt: Option<Felt>)
    ensures
        felt == hex_felt(text@),
{
    let bytes = starknet::core::types::FieldElement::from_hex_be(text).ok()?.to_bytes_be();
    Some(
        Felt {
            hi: u128::from_be_bytes(bytes[..16].try_into().unwrap()),
            lo: u128::from_be_bytes(bytes[16..].try_into().unwrap()),
        },
    )
}

/// Calls `FieldElement::to_bytes_be`. Trusted: the result holds the 32 digits
/// of the number in base 256, the most significant first.
#[verifier::external_body]
pub(crate) fn felt_bytes(felt: Felt) -> (bytes: Vec<u8>)
    ensures
        bytes@ == bytes_be(felt.value()),
{
    let parts = [felt.hi.to_be_bytes(), felt.lo.to_be_bytes()].concat();
    starknet::core::types::FieldElement::from_byte_slice_be(&parts).unwrap().to_bytes_be().to_vec()
}

/// Calls `starknet`'s `get_selector_from_name`, which refuses names beyond
/// ASCII. Trusted: the result depends on the name alone.
#[verifier::external_body]
pub(crate) fn selector_from_name(name: &str) -> (selector: Felt)
    requires
        is_ascii_chars(name@),
    ensures
        selector.value() == selector_of(name@),
{
    let bytes = starknet::core::utils::get_selector_from_name(name).unwrap().to_bytes_be();
    Felt {
        hi: u128::from_be_bytes(bytes[..16].try_into().unwrap()),
        lo: u128::from_be_bytes(bytes[16..].try_into().unwrap()),
    }
}

/// Calls `starknet`'s `get_contract_address`. Trusted: the result depends on
/// the salt, the class hash, the constructor arguments and the deployer alone.
#[verifier::external_body]
pub(crate) fn contract_address(
    salt: Felt,
    class_hash: Felt,
    args: &Vec<Felt>,
    deployer: Felt,
) -> (address: Felt)
    ensures
        address.value() == contract_address_of(
            salt.value(),
            class_hash.value(),
            args@.map_values(|arg: Felt| arg.value()),
            deployer.value(),
        ),
{
    let element = |f: &Felt| starknet::core::types::FieldElement::from_byte_slice_be(
        &[f.hi.to_be_bytes(), f.lo.to_be_bytes()].concat(),
    ).unwrap();
    let args: Vec<starknet::core::types::FieldElement> = args.iter().map(element).collect();
    let bytes = starknet::core::utils::get_contract_address(
        element(&salt), element(&class_hash), &args, element(&deployer)).to_bytes_be();
    Felt {
        hi: u128::from_be_bytes(bytes[..16].try_into().unwrap()),
        lo: u128::from_be_bytes(bytes[16..].try_into().unwrap()),
    }
}

/// Calls `verifying_key` of `starknet`'s `SigningKey`. Trusted: the scalar of the
/// result depends on the secret scalar alone.
#[verifier::external_body]
pub(crate) fn verifying_key(secret: Felt) -> (key: Felt)
    ensures
        key.value() == public_key_of(secret.value()),
{
    let parts = [secret.hi.to_be_bytes(), secret.lo.to_be_bytes()].concat();
    let scalar = starknet::core::types::FieldElement::from_byte_slice_be(&parts).unwrap();
    let signing_key = starknet::signers::SigningKey::from_secret_scalar(scalar);
    let bytes = signing_key.verifying_key().scalar().to_bytes_be();
    Felt {
        hi: u128::from_be_bytes(bytes[..16].try_into().unwrap()),
        lo: u128::from_be_bytes(bytes[16..].try_into().unwrap()),
    }
}

/// Calls `serde_json::from_reader` for a `LegacyContractClass`, then
/// `LegacyContractClass::class_hash`. Trusted: whether the artifact parses, the
/// hash of the class it holds, and the texts of the errors of both calls depend
/// on its bytes alone.
#[verifier::external_body]
pub(crate) fn legacy_class_hash(artifact: &Vec<u8>) -> (hash: Result<Result<Felt, String>, String>)
    ensures
        match hash {
            Err(reason) => artifact_parse(artifact@) == Err::<(), Seq<char>>(reason@),
            Ok(Err(reason)) => artifact_parse(artifact@) is Ok && artifact_class_hash(artifact@)
                == Err::<nat, Seq<char>>(reason@),
            Ok(Ok(h)) => artifact_parse(artifact@) is Ok && artifact_class_hash(artifact@) == Ok::<
                nat,
                Seq<char>,
            >(h.value()),
        },
{
    let class: starknet::core::types::contract::legacy::LegacyContractClass =
        match serde_json::from_reader(artifact.as_slice()) {
            Ok(class) => class,
            Err(error) => return Err(error.to_string()),
        };
    let bytes = match class.class_hash() {
        Ok(hash) => hash.to_bytes_be(),
        Err(error) => return Ok(Err(error.to_string())),
    };
    let hi = u128::from_be_bytes(bytes[..16].try_into().unwrap());
    let lo = u128::from_be_bytes(bytes[16..].try_into().unwrap());
    Ok(Ok(Felt { hi, lo }))
}

/// Calls `url::Url::parse`. Trusted: whether a text is an absolute URL, its
/// serialization, and the text of the error depend on the text alone.
#[verifier::external_body]
pub(crate) fn parse_url(text: &str) -> (url: Result<String, String>)
    ensures
        match url {
            Ok(u) => url_of(text@) == Ok::<Seq<char>, Seq<char>>(u@),
            Err(reason) => url_of(text@) == Err::<Seq<char>, Seq<char>>(reason@),
        },
{
    match url::Url::parse(text) {
        Ok(url) => Ok(String::from(url)),
        Err(error) => Err(error.to_string()),
    }
}

/// Calls `std::str::from_utf8`. Trusted: it succeeds on well-formed UTF-8, with
/// the text that the bytes encode; the text of the error depends on the bytes
/// alone.
#[verifier::external_body]
pub(crate) fn utf8_text(bytes: &[u8]) -> (text: Result<String, String>)
    ensures
        match text {
            Ok(t) => valid_utf8(bytes@) && t@ == decode_utf8(bytes@),
            Err(reason) => !valid_utf8(bytes@) && reason@ == utf8_error_of(bytes@),
        },
{
    match std::str::from_utf8(bytes) {
        Ok(text) => Ok(String::from(text)),
        Err(error) => Err(error.to_string()),
    }
}

} // verus!
