use cosmwasm_std::StdError;
use ownable_cookie::address::{derive_evm_address, derive_native_address, EvmAddress, NativeAddress};

// Compressed secp256k1 public keys of the secret keys 1 and 2, in base58.
const KEY_ONE: &str = "jesTu2BpszP8DKSoi1R5G6ggjHrsrVnboLdx6V47vkoR";
const KEY_TWO: &str = "pncSjsftdmspedXgmCkkHLRCeak12ex2WVrne2qdefSU";
// A 32-byte key that is no secp256k1 point encoding.
const ED_KEY: &str = "GjSacB6a5DFNEHjDSmn724QsrRStKYzkahPH67wyrhAY";

#[test]
fn native_address_of_a_key_on_mainnet() {
    let derived = derive_native_address(b'L', ED_KEY);
    assert_eq!(
        derived,
        Ok(NativeAddress::new("3JmCa4jLVv7Yn2XkCnBUGsa7WNFVEMxAfWe".to_string()))
    );
}

#[test]
fn native_address_of_a_key_on_testnet() {
    let derived = derive_native_address(b'T', ED_KEY);
    assert_eq!(
        derived,
        Ok(NativeAddress::new("3MyuPwbiobZFnZzrtyY8pkaHoQHYmyQxxY1".to_string()))
    );
}

#[test]
fn native_address_depends_on_the_key() {
    let one = derive_native_address(b'L', KEY_ONE).unwrap();
    let two = derive_native_address(b'L', KEY_TWO).unwrap();
    assert_eq!(one.text, "3Jf41MBQQ3SJ7bowWcoHpzEKeFNTFYTRGkU");
    assert_eq!(two.text, "3Jx9Srf4v2TNMtbtYy5A6bD121pEqSmnwxs");
    assert!(!one.same_as(&two));
}

#[test]
fn native_address_is_what_the_outside_derivation_gives() {
    let ours = derive_native_address(b'L', KEY_ONE).unwrap();
    let theirs = ownable_std::address_lto('L', KEY_ONE.to_string()).unwrap();
    assert_eq!(ours.text, theirs.into_string());
}

#[test]
fn native_address_is_deterministic() {
    assert_eq!(
        derive_native_address(b'T', KEY_TWO),
        derive_native_address(b'T', KEY_TWO)
    );
}

#[test]
fn native_address_refuses_an_unknown_tag() {
    assert_eq!(
        derive_native_address(b'X', ED_KEY),
        Err(StdError::generic_err("unrecognized network_id"))
    );
    assert!(derive_native_address(0, ED_KEY).is_err());
    assert!(derive_native_address(b'l', ED_KEY).is_err());
}

#[test]
fn native_address_refuses_a_key_that_is_not_base58() {
    assert_eq!(
        derive_native_address(b'L', "0xOWNER"),
        Err(StdError::generic_err("invalid public key"))
    );
    assert!(derive_native_address(b'L', "key with spaces").is_err());
}

#[test]
fn native_address_of_the_empty_key_exists() {
    // The empty text is base58 for no bytes at all.
    assert!(derive_native_address(b'L', "").is_ok());
}

#[test]
fn evm_address_of_secret_key_one() {
    assert_eq!(
        derive_evm_address(KEY_ONE),
        Ok(EvmAddress::new("0x7E5F4552091A69125d5DfCb7b8C2659029395Bdf".to_string()))
    );
}

#[test]
fn evm_address_of_secret_key_two() {
    assert_eq!(
        derive_evm_address(KEY_TWO),
        Ok(EvmAddress::new("0x2B5AD5c4795c026514f8317c7a215E218DcCD6cF".to_string()))
    );
}

#[test]
fn evm_address_is_what_the_outside_derivation_gives() {
    let ours = derive_evm_address(KEY_TWO).unwrap();
    let theirs = ownable_std::address_eip155(KEY_TWO.to_string()).unwrap();
    assert_eq!(ours.text, theirs.into_string());
}

#[test]
fn evm_address_refuses_the_empty_key() {
    assert_eq!(derive_evm_address(""), Err(StdError::not_found("empty input")));
}

#[test]
fn evm_address_refuses_a_key_that_is_not_base58() {
    assert!(matches!(
        derive_evm_address("0xOWNER"),
        Err(StdError::GenericErr { .. })
    ));
}

#[test]
fn evm_address_refuses_bytes_that_are_no_curve_point() {
    // Base58, but 32 bytes: no serialized secp256k1 key. An error, not a panic.
    assert_eq!(
        derive_evm_address(ED_KEY),
        Err(StdError::generic_err("invalid public key"))
    );
    assert_eq!(
        derive_evm_address("abc"),
        Err(StdError::generic_err("invalid public key"))
    );
}

#[test]
fn addresses_compare_by_their_text() {
    let a = NativeAddress::new("3Jf41MBQQ3SJ7bowWcoHpzEKeFNTFYTRGkU".to_string());
    let b = NativeAddress::new("3Jf41MBQQ3SJ7bowWcoHpzEKeFNTFYTRGkU".to_string());
    let c = NativeAddress::new("3Jx9Srf4v2TNMtbtYy5A6bD121pEqSmnwxs".to_string());
    assert!(a.same_as(&b));
    assert!(!a.same_as(&c));
    assert_eq!(a.clone(), a);
    let x = EvmAddress::new("0xOWNER".to_string());
    let y = EvmAddress::new("0xowner".to_string());
    assert!(x.same_as(&x.clone()));
    assert!(!x.same_as(&y));
}
