use odra_casper::address::{AccountHash, CasperAddress, ContractPackageHash};
use odra_casper::backend::{AttachedValue, Motes, __caller, __one_token, __self_address};
use odra_casper::backend_name;
use odra_casper::call_stack::{
    call_stack_element_to_address, caller, self_address, take_call_stack_elem, CallStackElement,
};
use odra_casper::naming::{package_hash_key, wasm_file_name};
use odra_casper::storage::to_dictionary_key;
use odra_casper::text::decimal_string;

fn session(b: u8) -> CallStackElement {
    CallStackElement::Session { account_hash: AccountHash::new([b; 32]) }
}

fn stored_session(b: u8) -> CallStackElement {
    CallStackElement::StoredSession {
        account_hash: AccountHash::new([b; 32]),
        contract_package_hash: ContractPackageHash::new([b + 1; 32]),
        contract_hash: [b + 2; 32],
    }
}

fn stored_contract(b: u8) -> CallStackElement {
    CallStackElement::StoredContract {
        contract_package_hash: ContractPackageHash::new([b; 32]),
        contract_hash: [b + 1; 32],
    }
}

#[test]
fn frames_act_for_accounts_or_contracts() {
    assert_eq!(call_stack_element_to_address(session(1)), CasperAddress::Account(AccountHash::new([1; 32])));
    // Stored session code acts in the account's context.
    assert_eq!(
        call_stack_element_to_address(stored_session(4)),
        CasperAddress::Account(AccountHash::new([4; 32]))
    );
    // A stored contract is addressed by its contract hash, not its package hash.
    assert_eq!(
        call_stack_element_to_address(stored_contract(9)),
        CasperAddress::Contract(ContractPackageHash::new([10; 32]))
    );
}

#[test]
fn frames_are_counted_from_the_top() {
    let stack = vec![session(1), stored_contract(20), stored_contract(30)];
    assert_eq!(take_call_stack_elem(&stack, 0), Some(stored_contract(30)));
    assert_eq!(take_call_stack_elem(&stack, 2), Some(session(1)));
    assert_eq!(take_call_stack_elem(&stack, 3), None);
    assert_eq!(self_address(&stack), Some(CasperAddress::Contract(ContractPackageHash::new([31; 32]))));
    // The frame below the top is a stored contract: only session code may call in.
    assert_eq!(caller(&stack), None);
    let called_from_session = vec![session(1), stored_contract(20)];
    assert_eq!(caller(&called_from_session), Some(CasperAddress::Account(AccountHash::new([1; 32]))));
    let called_from_stored_session = vec![stored_session(4), stored_contract(20)];
    assert_eq!(caller(&called_from_stored_session), None);
    let alone = vec![session(1)];
    assert_eq!(caller(&alone), None);
    assert_eq!(self_address(&alone), Some(CasperAddress::Account(AccountHash::new([1; 32]))));
    assert_eq!(self_address(&vec![]), None);
}

#[test]
fn caller_and_self_as_odra_addresses() {
    let stack = vec![session(1), stored_contract(20)];
    let caller_address = __caller(&stack).unwrap();
    assert_eq!(caller_address.bytes()[0], 0);
    assert_eq!(&caller_address.bytes()[1..], &[1u8; 32]);
    let me = __self_address(&stack).unwrap();
    assert_eq!(me.bytes()[0], 1);
    assert_eq!(&me.bytes()[1..], &[21u8; 32]);
    assert!(__caller(&vec![session(1)]).is_none());
    assert!(__caller(&vec![session(1), stored_contract(20), stored_contract(30)]).is_none());
    assert!(__self_address(&vec![]).is_none());
}

#[test]
fn one_token_is_a_billion_motes() {
    assert_eq!(__one_token(), 1_000_000_000);
}

#[test]
fn dictionary_keys_are_lowercase_hex() {
    let mut digest = [0u8; 32];
    digest[0] = 0xab;
    digest[1] = 0x0f;
    digest[31] = 0x90;
    let key = to_dictionary_key(&digest);
    assert_eq!(key.len(), 64);
    assert!(key.starts_with("ab0f00"));
    assert!(key.ends_with("0090"));
    assert_eq!(to_dictionary_key(&[0xffu8; 32]), "f".repeat(64));
}

#[test]
fn names_of_artefacts() {
    assert_eq!(package_hash_key("erc20"), "erc20_package_hash");
    assert_eq!(wasm_file_name("erc20"), "erc20.wasm");
    assert_eq!(backend_name(), "CasperVM");
}

#[test]
fn decimal_numbers() {
    assert_eq!(decimal_string(0), "0");
    assert_eq!(decimal_string(7), "7");
    assert_eq!(decimal_string(10), "10");
    assert_eq!(decimal_string(4294967295), "4294967295");
}

#[test]
fn attached_value_reads_back_what_was_set() {
    let mut value = AttachedValue::new();
    assert_eq!(value.__attached_value(), Motes([0; 8]));
    let amount = Motes([5, 0, 0, 0, 0, 0, 0, 1]);
    value.set_attached_value(amount);
    assert_eq!(value.__attached_value(), amount);
    value.clear_attached_value();
    assert_eq!(value.__attached_value(), Motes([0; 8]));
}
