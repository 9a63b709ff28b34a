use credit_score::addr::addr_validate;
use credit_score::error::ContractError;
use credit_score::numeral::{u128_to_dec, u64_to_dec};

#[test]
fn lowercase_alphanumeric_addresses_validate() {
    let a = addr_validate("archway1xyz09").unwrap();
    assert_eq!(a.as_str(), "archway1xyz09");
    assert_eq!(a.to_text(), "archway1xyz09");
    assert_eq!(addr_validate("a").unwrap().as_str(), "a");
    assert_eq!(addr_validate("0").unwrap().as_str(), "0");
}

#[test]
fn malformed_addresses_are_rejected() {
    assert_eq!(addr_validate("").unwrap_err(), ContractError::InvalidAddress);
    assert_eq!(addr_validate("Admin1").unwrap_err(), ContractError::InvalidAddress);
    assert_eq!(addr_validate("admin 1").unwrap_err(), ContractError::InvalidAddress);
    assert_eq!(addr_validate("admin-1").unwrap_err(), ContractError::InvalidAddress);
    assert_eq!(addr_validate("admin\u{e9}").unwrap_err(), ContractError::InvalidAddress);
    let long = "b".repeat(91);
    assert_eq!(addr_validate(&long).unwrap_err(), ContractError::InvalidAddress);
    let longest = "b".repeat(90);
    assert!(addr_validate(&longest).is_ok());
}

#[test]
fn address_equality_is_by_text() {
    let a = addr_validate("alice").unwrap();
    let b = addr_validate("alice").unwrap();
    let c = addr_validate("bob").unwrap();
    assert!(a == b);
    assert!(a != c);
    assert!(a == a.clone());
}

#[test]
fn decimal_numerals_are_exact() {
    assert_eq!(u128_to_dec(0), "0");
    assert_eq!(u128_to_dec(7), "7");
    assert_eq!(u128_to_dec(10), "10");
    assert_eq!(u128_to_dec(1000), "1000");
    assert_eq!(u128_to_dec(90210), "90210");
    assert_eq!(u128_to_dec(u128::MAX), "340282366920938463463374607431768211455");
    assert_eq!(u64_to_dec(u64::MAX), "18446744073709551615");
    assert_eq!(u64_to_dec(120), "120");
}
