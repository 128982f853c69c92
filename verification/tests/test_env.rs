use odra_casper::address::{AccountHash, CasperAddress, ContractPackageHash};
use odra_casper::test_env::{
    event_from_query, event_key, event_position, genesis_accounts, parse_error, EngineError, EventError,
    ExecError, OdraError, TestEnvState, VmError, GENESIS_ACCOUNT_COUNT,
};

fn accounts() -> Vec<CasperAddress> {
    (0u8..3).map(|i| CasperAddress::Account(AccountHash::new([i; 32]))).collect()
}

#[test]
fn engine_errors_are_reported_to_odra() {
    assert_eq!(
        parse_error(EngineError::Exec(ExecError::UserRevert(7))),
        OdraError::ExecutionError { code: 7, message: String::new() }
    );
    assert_eq!(
        parse_error(EngineError::Exec(ExecError::InvalidContext)),
        OdraError::VmError(VmError::InvalidContext)
    );
    assert_eq!(
        parse_error(EngineError::Exec(ExecError::NoSuchMethod("mint".to_string()))),
        OdraError::VmError(VmError::NoSuchMethod("mint".to_string()))
    );
    assert_eq!(
        parse_error(EngineError::Exec(ExecError::Other { text: "gas".to_string() })),
        OdraError::VmError(VmError::Other("Casper ExecError: gas".to_string()))
    );
    assert_eq!(
        parse_error(EngineError::Other { text: "missing".to_string() }),
        OdraError::VmError(VmError::Other("Casper EngineStateError: missing".to_string()))
    );
}

#[test]
fn first_account_acts_until_another_is_chosen() {
    let mut state = TestEnvState::new(accounts());
    assert_eq!(state.active_account, accounts()[0]);
    assert_eq!(state.get_account(2), accounts()[2]);
    state.set_caller(accounts()[1]);
    assert_eq!(state.active_account_hash(), Some(AccountHash::new([1; 32])));
    state.as_account(accounts()[2]);
    assert_eq!(state.active_account, accounts()[2]);
    state.finish_deploy();
    assert_eq!(state.active_account, accounts()[0]);
    state.set_caller(CasperAddress::Contract(ContractPackageHash::new([4; 32])));
    assert_eq!(state.active_account_hash(), None);
}

#[test]
fn deploy_hashes_follow_the_counter() {
    let mut state = TestEnvState::new(accounts());
    let first = state.next_hash();
    assert_eq!(first, [0u8; 32]);
    let second = state.next_hash();
    let mut expected = [0u8; 32];
    expected[0] = 1;
    assert_eq!(second, expected);
    assert_ne!(first, second);
    state.calls_counter = 0x1234;
    let h = state.next_hash();
    assert_eq!(h[0], 0x34);
    assert_eq!(h[1], 0x12);
    assert_eq!(state.calls_counter, 0x1235);
}

#[test]
fn failed_calls_record_their_error() {
    let mut state = TestEnvState::new(accounts());
    state.begin_call();
    assert!(!state.finish_call(Some(EngineError::Exec(ExecError::UserRevert(3))), true));
    assert_eq!(state.get_error(), Some(OdraError::ExecutionError { code: 3, message: String::new() }));
    state.begin_call();
    assert_eq!(state.get_error(), None);
    assert!(state.finish_call(None, true));
    assert!(!state.finish_call(None, false));
    assert_eq!(state.get_error(), None);
}

#[test]
fn event_positions() {
    assert_eq!(event_position(0, 1), Err(EventError::IndexOutOfBounds));
    assert_eq!(event_position(10, 10), Err(EventError::IndexOutOfBounds));
    assert_eq!(event_position(10, -11), Err(EventError::IndexOutOfBounds));
    assert_eq!(event_position(10, 0), Ok(0));
    assert_eq!(event_position(10, 1), Ok(1));
    assert_eq!(event_position(10, -1), Ok(9));
    assert_eq!(event_position(10, -2), Ok(8));
    assert_eq!(event_position(10, -10), Ok(0));
}

#[test]
fn events_are_stored_under_their_position() {
    assert_eq!(event_key(0), "0");
    assert_eq!(event_key(42), "42");
    assert_eq!(event_from_query(Some(vec![1, 2])), Ok(vec![1, 2]));
    assert_eq!(event_from_query(None), Err(EventError::IndexOutOfBounds));
}

#[test]
fn genesis_accounts_are_the_ed25519_keys_of_their_index() {
    let accounts = genesis_accounts();
    assert_eq!(accounts.len(), GENESIS_ACCOUNT_COUNT as usize);
    for (i, account) in accounts.iter().enumerate() {
        let secret_key = casper_types::SecretKey::ed25519_from_bytes([i as u8; 32]).unwrap();
        let public_key = casper_types::PublicKey::from(&secret_key);
        let expected = casper_types::account::AccountHash::from(&public_key).value();
        assert_eq!(*account, CasperAddress::Account(AccountHash::new(expected)));
        // The hash is a digest of the key, not the seed handed back.
        assert_ne!(expected, [i as u8; 32]);
    }
    assert_ne!(accounts[0], accounts[1]);
    let state = TestEnvState::new(accounts.clone());
    assert_eq!(state.active_account, accounts[0]);
}
