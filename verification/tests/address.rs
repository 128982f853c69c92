use casper_types::bytesrepr::ToBytes;
use odra_casper::address::{AccountHash, BytesreprError, CasperAddress, ContractPackageHash, StorageKey};
use odra_casper::odra_address::{OdraAddress, OdraAddressWrapper};

const CONTRACT_PACKAGE_HASH: &str =
    "contract-package-wasm7ba9daac84bebee8111c186588f21ebca35550b6cf1244e71768bd871938be6a";
const ACCOUNT_HASH: &str =
    "account-hash-3b4ffcfb21411ced5fc1560c3f6ffed86f4885e5ea05cde49d90962a48a14d95";

fn mock_account_hash() -> AccountHash {
    AccountHash::new(
        casper_types::account::AccountHash::from_formatted_str(ACCOUNT_HASH)
            .unwrap()
            .value(),
    )
}

fn mock_contract_package_hash() -> ContractPackageHash {
    ContractPackageHash::new(
        casper_types::ContractPackageHash::from_formatted_str(CONTRACT_PACKAGE_HASH)
            .unwrap()
            .value(),
    )
}

#[test]
fn test_casper_address_account_hash_conversion() {
    let account_hash = mock_account_hash();

    // It is possible to convert CasperAddress back to AccountHash.
    let casper_address = CasperAddress::from(account_hash);
    assert_eq!(casper_address.as_account_hash().unwrap(), &account_hash);

    // It is not possible to convert CasperAddress to ContractPackageHash.
    assert!(casper_address.as_contract_package_hash().is_none());

    // And it is not a contract.
    assert!(!casper_address.is_contract());

    // It can be converted into a Key and back to CasperAddress.
    let key = StorageKey::from(casper_address);
    let restored = CasperAddress::try_from(key);
    assert_eq!(restored.unwrap(), casper_address);

    // It can be converted into bytes and back.
    let bytes = casper_address.to_bytes().unwrap();
    let (back, rest) = CasperAddress::from_bytes(&bytes).unwrap();
    assert_eq!(back, casper_address);
    assert!(rest.is_empty());
}

#[test]
fn test_casper_address_contract_package_hash_conversion() {
    let contract_package_hash = mock_contract_package_hash();
    let casper_address = CasperAddress::from(contract_package_hash);

    // It is possible to convert CasperAddress back to ContractPackageHash.
    assert_eq!(casper_address.as_contract_package_hash().unwrap(), &contract_package_hash);

    // It is not possible to convert CasperAddress to AccountHash.
    assert!(casper_address.as_account_hash().is_none());

    // And it is a contract.
    assert!(casper_address.is_contract());

    // It can be converted into a Key and back to CasperAddress.
    let key = StorageKey::from(casper_address);
    let restored = CasperAddress::try_from(key);
    assert_eq!(restored.unwrap(), casper_address);
}

#[test]
fn test_casper_address_key_conversion_fails() {
    let bad_key = StorageKey::Other(casper_types::Key::SystemContractRegistry);
    assert_eq!(CasperAddress::try_from(bad_key), Err(String::from("Unsupport Key type.")));
}

#[test]
fn test_address() {
    let casper_addr = ContractPackageHash::new([1u8; 32]);
    let odra_addr = OdraAddressWrapper::from_contract_package_hash(casper_addr);
    let result: ContractPackageHash = odra_addr.into_contract_package_hash();
    assert_eq!(result, casper_addr);
}

#[test]
fn test_casper_address_to_odra_address() {
    let casper_addr_ph = ContractPackageHash::new([3u8; 32]);
    let casper_addr = CasperAddress::from(casper_addr_ph);
    let odra_addr: OdraAddress = casper_addr.into_odra_address();
    let result = CasperAddress::from_odra_address(&odra_addr);
    assert_eq!(result, casper_addr);
    assert_eq!(result.as_contract_package_hash().unwrap(), &casper_addr_ph);
}

#[test]
fn keys_of_addresses() {
    let account = CasperAddress::Account(AccountHash::new([7u8; 32]));
    assert_eq!(StorageKey::from(account), StorageKey::Account(AccountHash::new([7u8; 32])));
    let contract = CasperAddress::Contract(ContractPackageHash::new([8u8; 32]));
    assert_eq!(StorageKey::from(contract), StorageKey::Hash([8u8; 32]));
    assert_eq!(
        CasperAddress::try_from(StorageKey::Hash([9u8; 32])),
        Ok(CasperAddress::Contract(ContractPackageHash::new([9u8; 32])))
    );
    let uref = casper_types::Key::URef(casper_types::URef::new([1u8; 32], casper_types::AccessRights::READ));
    assert!(CasperAddress::try_from(StorageKey::Other(uref)).is_err());
}

#[test]
fn addresses_encode_as_their_keys() {
    let mut hash = [0u8; 32];
    hash[0] = 0xab;
    hash[31] = 0xcd;
    let account = CasperAddress::Account(AccountHash::new(hash));
    let bytes = account.to_bytes().unwrap();
    let mut expected = vec![0u8];
    expected.extend_from_slice(&hash);
    assert_eq!(bytes, expected);
    assert_eq!(account.serialized_length(), 33);

    let contract = CasperAddress::Contract(ContractPackageHash::new(hash));
    let bytes = contract.to_bytes().unwrap();
    expected[0] = 1;
    assert_eq!(bytes, expected);
    assert_eq!(contract.serialized_length(), 33);

    // The runtime's own encoding of the same key agrees.
    let casper_key = casper_types::Key::Hash(hash);
    assert_eq!(casper_key.to_bytes().unwrap(), bytes);
}

#[test]
fn decoding_leaves_the_bytes_after_the_address() {
    let contract = CasperAddress::Contract(ContractPackageHash::new([5u8; 32]));
    let mut bytes = contract.to_bytes().unwrap();
    bytes.extend_from_slice(&[9, 8, 7]);
    let (back, rest) = CasperAddress::from_bytes(&bytes).unwrap();
    assert_eq!(back, contract);
    assert_eq!(rest, &[9, 8, 7]);
}

#[test]
fn decoding_errors() {
    assert_eq!(CasperAddress::from_bytes(&[]), Err(BytesreprError::EarlyEndOfStream));
    // An unknown kind of key.
    assert_eq!(CasperAddress::from_bytes(&[11u8; 40]), Err(BytesreprError::Formatting));
    // An account key cut short.
    assert_eq!(CasperAddress::from_bytes(&[0u8; 10]), Err(BytesreprError::EarlyEndOfStream));
    // A transfer key is no address.
    let mut transfer = vec![3u8];
    transfer.extend_from_slice(&[0u8; 32]);
    assert_eq!(CasperAddress::from_bytes(&transfer), Err(BytesreprError::Formatting));
    // A reference key needs its access rights byte.
    assert_eq!(CasperAddress::from_bytes(&transfer[..33].iter().map(|_| 2u8).collect::<Vec<_>>()), Err(BytesreprError::EarlyEndOfStream));
    // A reference key with invalid access rights.
    let mut uref = vec![2u8];
    uref.extend_from_slice(&[0u8; 32]);
    uref.push(9);
    assert_eq!(CasperAddress::from_bytes(&uref), Err(BytesreprError::Formatting));
    // An era key needs only eight bytes, and is no address either.
    assert_eq!(CasperAddress::from_bytes(&[5u8, 1, 2, 3, 4, 5, 6, 7, 8]), Err(BytesreprError::Formatting));
}

#[test]
fn odra_addresses_carry_the_encoding() {
    let account = CasperAddress::Account(AccountHash::new([2u8; 32]));
    let odra = account.into_odra_address();
    assert_eq!(odra.bytes(), account.to_bytes().unwrap().as_slice());
    assert_eq!(CasperAddress::try_from_odra_address(&odra), Some(account));
    assert_eq!(CasperAddress::try_from_odra_address(&OdraAddress::new(&[0u8; 5])), None);
    assert_eq!(CasperAddress::try_from_odra_address(&OdraAddress::new(&[4u8; 40])), None);

    let wrapper = OdraAddressWrapper::from_account_hash(AccountHash::new([2u8; 32]));
    assert_eq!(wrapper.deref(), &odra);
    assert_eq!(wrapper.clone().into_casper_address(), account);
    assert_eq!(OdraAddressWrapper::from_casper_address(account), wrapper);
    assert_eq!(OdraAddressWrapper::new(odra.clone()).0, odra);
}

#[test]
fn contract_hash_through_an_odra_address_keeps_the_kind_byte() {
    let hash = ContractPackageHash::new([3u8; 32]);
    let back = OdraAddressWrapper::from_contract_package_hash(hash).into_contract_package_hash();
    let mut expected = [3u8; 32];
    expected[0] = 1;
    assert_eq!(back, ContractPackageHash::new(expected));
    // A short address is padded with zeros.
    let short = OdraAddressWrapper::new(OdraAddress::new(&[4, 5]));
    let mut padded = [0u8; 32];
    padded[0] = 4;
    padded[1] = 5;
    assert_eq!(short.into_contract_package_hash().value(), padded);
}

#[test]
fn address_value_type_is_key() {
    assert!(matches!(CasperAddress::cl_type(), odra_casper::codegen::ty::ClType::Key));
}
