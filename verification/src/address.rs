//! Canonical addresses and their derivation from a sender's public key.
//!
//! Two address families exist: the ownable's home chain, selected by a
//! one-character network tag, and the EVM family (`eip155`). Each has a type of
//! its own, so that an address of one family is never compared with, or stored
//! in place of, an address of the other.
//!
//! The hashing and encoding are done by `ownable_std`; what those calls return
//! is named here by functions without a body, and believed, not proved.

use vstd::prelude::*;

verus! {

/// A canonical address of the ownable's home chain.
#[derive(Debug, PartialEq, Eq)]
pub struct NativeAddress {
    pub text: String,
}

/// A canonical address of the EVM family.
#[derive(Debug, PartialEq, Eq)]
pub struct EvmAddress {
    pub text: String,
}

impl View for NativeAddress {
    type V = Seq<char>;

    open spec fn view(&self) -> Seq<char> {
        self.text@
    }
}

impl View for EvmAddress {
    type V = Seq<char>;

    open spec fn view(&self) -> Seq<char> {
        self.text@
    }
}

impl Clone for NativeAddress {
    fn clone(&self) -> (copy: Self)
        ensures
            copy@ == self@,
    {
        NativeAddress { text: self.text.clone() }
    }
}

impl Clone for EvmAddress {
    fn clone(&self) -> (copy: Self)
        ensures
            copy@ == self@,
    {
        EvmAddress { text: self.text.clone() }
    }
}

impl NativeAddress {
    /// Takes a text as an address of the home chain, unchecked.
    pub fn new(text: String) -> (address: Self)
        ensures
            address@ == text@,
    {
        NativeAddress { text }
    }

    /// Whether both are the same address.
    pub fn same_as(&self, other: &NativeAddress) -> (same: bool)
        ensures
            same == (self@ == other@),
    {
        self.text == other.text
    }
}

impl EvmAddress {
    /// Takes a text as an address of the EVM family, unchecked.
    pub fn new(text: String) -> (address: Self)
        ensures
            address@ == text@,
    {
        EvmAddress { text }
    }

    /// Whether both are the same address.
    pub fn same_as(&self, other: &EvmAddress) -> (same: bool)
        ensures
            same == (self@ == other@),
    {
        self.text == other.text
    }
}

/// The bytes that `bs58` decodes a text to with the default alphabet, or
/// `None` where the text is not base58.
pub uninterp spec fn base58_decoded(text: Seq<char>) -> Option<Seq<u8>>;

/// Whether `secp256k1` accepts the bytes as a serialized public key.
pub uninterp spec fn secp256k1_point(bytes: Seq<u8>) -> bool;

/// The home-chain address that `ownable_std::address_lto` gives for a network
/// tag and a base58 public key, or `None` where it reports an error.
pub uninterp spec fn lto_address(network_id: char, public_key: Seq<char>) -> Option<Seq<char>>;

/// The EVM address that `ownable_std::address_eip155` gives for a base58
/// secp256k1 public key, or `None` where it reports an error.
pub uninterp spec fn eip155_address(public_key: Seq<char>) -> Option<Seq<char>>;

/// Calls `bs58::decode(..).into_vec()`. Believed: the outcome depends on the
/// text alone, and is what [`base58_decoded`] names.
#[verifier::external_body]
fn base58_decode(text: &str) -> (bytes: Option<Vec<u8>>)
    ensures
        match bytes {
            Some(b) => base58_decoded(text@) == Some(b@),
            None => base58_decoded(text@) is None,
        },
{
    bs58::decode(text).into_vec().ok()
}

/// Calls `secp256k1::PublicKey::from_slice`. Believed: whether the bytes parse
/// depends on the bytes alone, and is what [`secp256k1_point`] names.
#[verifier::external_body]
fn parses_as_secp256k1_key(bytes: &Vec<u8>) -> (accepted: bool)
    ensures
        accepted == secp256k1_point(bytes@),
{
    secp256k1::PublicKey::from_slice(bytes.as_slice()).is_ok()
}

/// Calls `cosmwasm_std::StdError::generic_err`. Nothing is claimed of the
/// error that comes back.
#[verifier::external_body]
fn generic_error(message: &str) -> cosmwasm_std::StdError {
    cosmwasm_std::StdError::generic_err(message)
}

/// Calls `ownable_std::address_lto`. Believed, from its source: the outcome
/// depends on the arguments alone and is what [`lto_address`] names; it
/// succeeds exactly when the tag is `L` or `T` and the key is base58; it
/// never panics.
#[verifier::external_body]
fn address_lto(network_id: char, public_key: &str) -> (derived: Result<
    NativeAddress,
    cosmwasm_std::StdError,
>)
    ensures
        native_text(derived) == lto_address(network_id, public_key@),
        derived.is_ok() == ((network_id == 'L' || network_id == 'T') && base58_decoded(
            public_key@,
        ) is Some),
{
    match ownable_std::address_lto(network_id, public_key.to_string()) {
        Ok(address) => Ok(NativeAddress { text: address.into_string() }),
        Err(e) => Err(e),
    }
}

/// Calls `ownable_std::address_eip155`. That function unwraps the parse of the
/// decoded key, so a text that is base58 but no secp256k1 key is left out by
/// `requires`. Believed, from its source: on the other texts the outcome
/// depends on the text alone and is what [`eip155_address`] names, and it
/// succeeds exactly when the text is not empty and is base58.
#[verifier::external_body]
fn address_eip155(public_key: &str) -> (derived: Result<EvmAddress, cosmwasm_std::StdError>)
    requires
        !malformed_evm_key(public_key@),
    ensures
        evm_text(derived) == eip155_address(public_key@),
        derived.is_ok() == (public_key@.len() > 0 && base58_decoded(public_key@) is Some),
{
    match ownable_std::address_eip155(public_key.to_string()) {
        Ok(address) => Ok(EvmAddress { text: address.into_string() }),
        Err(e) => Err(e),
    }
}

/// The address text of a home-chain derivation, `None` for a failure.
pub open spec fn native_text(derived: Result<NativeAddress, cosmwasm_std::StdError>) -> Option<
    Seq<char>,
> {
    match derived {
        Ok(address) => Some(address@),
        Err(_) => None,
    }
}

/// The address text of an EVM derivation, `None` for a failure.
pub open spec fn evm_text(derived: Result<EvmAddress, cosmwasm_std::StdError>) -> Option<
    Seq<char>,
> {
    match derived {
        Ok(address) => Some(address@),
        Err(_) => None,
    }
}

/// A text that decodes as base58 to bytes that are no secp256k1 public key.
pub open spec fn malformed_evm_key(public_key: Seq<char>) -> bool {
    &&& public_key.len() > 0
    &&& base58_decoded(public_key) matches Some(bytes)
    &&& !secp256k1_point(bytes)
}

/// The home-chain address of a sender under the ownable's network tag, or
/// `None` where the sender's key is not well formed for it.
pub open spec fn native_address_of(network_id: u8, public_key: Seq<char>) -> Option<Seq<char>> {
    lto_address(network_id as char, public_key)
}

/// The EVM address of a sender, or `None` where the sender's key is not well
/// formed for that family.
pub open spec fn evm_address_of(public_key: Seq<char>) -> Option<Seq<char>> {
    if malformed_evm_key(public_key) {
        None
    } else {
        eip155_address(public_key)
    }
}

/// Derives the home-chain address of a public key under a network tag.
///
/// Succeeds exactly when the tag is `L` or `T` and the key is base58.
pub fn derive_native_address(network_id: u8, public_key: &str) -> (derived: Result<
    NativeAddress,
    cosmwasm_std::StdError,
>)
    ensures
        native_text(derived) == native_address_of(network_id, public_key@),
        derived is Ok <==> (network_id == 0x4c || network_id == 0x54) && base58_decoded(
            public_key@,
        ) is Some,
{
    address_lto(network_id as char, public_key)
}

/// Derives the EVM address of a public key.
///
/// Succeeds exactly when the key is not empty, is base58 and decodes to a
/// secp256k1 public key. A key that decodes to other bytes is refused here,
/// before the derivation is asked for it.
pub fn derive_evm_address(public_key: &str) -> (derived: Result<
    EvmAddress,
    cosmwasm_std::StdError,
>)
    ensures
        evm_text(derived) == evm_address_of(public_key@),
        derived is Ok <==> public_key@.len() > 0 && (base58_decoded(public_key@) matches Some(
            bytes,
        ) && secp256k1_point(bytes)),
{
    if !public_key.is_empty() {
        match base58_decode(public_key) {
            Some(bytes) => {
                if !parses_as_secp256k1_key(&bytes) {
                    return Err(generic_error("invalid public key"));
                }
            },
            None => {},
        }
    }
    address_eip155(public_key)
}

} // verus!
