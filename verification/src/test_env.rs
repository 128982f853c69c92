//! The decisions of the test environment that drives contracts in an in-memory engine: which
//! account acts, which deploy hash comes next, what a failed execution is reported as, and
//! where an event is found.
use vstd::prelude::*;

use crate::address::{AccountHash, CasperAddress};
use crate::text::{decimal_string, decimal_text};

verus! {

/// An error of the engine, as far as the test environment tells errors apart. `text` is the
/// engine's own description of any other error.
#[derive(Clone, Debug, PartialEq, Eq)]
pub enum ExecError {
    /// The contract reverted with a user error code.
    UserRevert(u16),
    /// A host function was called in the wrong context.
    InvalidContext,
    /// A method that does not exist was called.
    NoSuchMethod(String),
    /// Any other execution error.
    Other { text: String },
}

/// An error of the engine: one raised while executing a deploy, or any other.
#[derive(Clone, Debug, PartialEq, Eq)]
pub enum EngineError {
    Exec(ExecError),
    Other { text: String },
}

/// An internal error of the virtual machine, as Odra reports it.
#[derive(Clone, Debug, PartialEq, Eq)]
pub enum VmError {
    InvalidContext,
    NoSuchMethod(String),
    Other(String),
}

/// An error reported to Odra: one the contract raised, with its code and message, or one of
/// the virtual machine.
#[derive(Clone, Debug, PartialEq, Eq)]
pub enum OdraError {
    ExecutionError { code: u16, message: String },
    VmError(VmError),
}

/// Why an event could not be read.
#[derive(Clone, Copy, Debug, PartialEq, Eq)]
pub enum EventError {
    IndexOutOfBounds,
}

/// What a failure of the engine is reported as.
pub open spec fn odra_error_of(err: EngineError) -> (OdraErrorView) {
    match err {
        EngineError::Exec(ExecError::UserRevert(id)) => OdraErrorView::Execution { code: id, message: Seq::empty() },
        EngineError::Exec(ExecError::InvalidContext) => OdraErrorView::InvalidContext,
        EngineError::Exec(ExecError::NoSuchMethod(name)) => OdraErrorView::NoSuchMethod(name@),
        EngineError::Exec(ExecError::Other { text }) => OdraErrorView::Other("Casper ExecError: "@ + text@),
        EngineError::Other { text } => OdraErrorView::Other("Casper EngineStateError: "@ + text@),
    }
}

/// An Odra error with its strings taken as character sequences.
pub ghost enum OdraErrorView {
    Execution { code: u16, message: Seq<char> },
    InvalidContext,
    NoSuchMethod(Seq<char>),
    Other(Seq<char>),
}

impl View for OdraError {
    type V = OdraErrorView;

    open spec fn view(&self) -> OdraErrorView {
        match *self {
            OdraError::ExecutionError { code, message } => OdraErrorView::Execution { code, message: message@ },
            OdraError::VmError(VmError::InvalidContext) => OdraErrorView::InvalidContext,
            OdraError::VmError(VmError::NoSuchMethod(name)) => OdraErrorView::NoSuchMethod(name@),
            OdraError::VmError(VmError::Other(text)) => OdraErrorView::Other(text@),
        }
    }
}

/// Translates a failure of the engine into the error reported to Odra: a user revert keeps
/// its code with an empty message, a wrong context and a missing method keep their meaning,
/// anything else becomes a virtual machine error with the engine's description.
pub fn parse_error(err: EngineError) -> (odra_error: OdraError)
    ensures
        odra_error@ == odra_error_of(err),
{
    match err {
        EngineError::Exec(exec_err) => match exec_err {
            ExecError::UserRevert(id) => OdraError::ExecutionError { code: id, message: String::new() },
            ExecError::InvalidContext => OdraError::VmError(VmError::InvalidContext),
            ExecError::NoSuchMethod(name) => OdraError::VmError(VmError::NoSuchMethod(name)),
            ExecError::Other { text } => {
                let mut message = String::from_str("Casper ExecError: ");
                message.append(text.as_str());
                OdraError::VmError(VmError::Other(message))
            },
        },
        EngineError::Other { text } => {
            let mut message = String::from_str("Casper EngineStateError: ");
            message.append(text.as_str());
            OdraError::VmError(VmError::Other(message))
        },
    }
}

/// A user revert is reported as an execution error that carries exactly the revert's code, for
/// every code, with an empty message; so two user reverts are reported alike exactly when
/// their codes are equal.
pub proof fn lemma_user_revert_keeps_code(id: u16, other: u16)
    ensures
        odra_error_of(EngineError::Exec(ExecError::UserRevert(id))) matches OdraErrorView::Execution {
            code,
            message,
        } && code == id && message.len() == 0,
        (odra_error_of(EngineError::Exec(ExecError::UserRevert(id))) == odra_error_of(
            EngineError::Exec(ExecError::UserRevert(other)),
        )) <==> id == other,
{
}

fn copy_string(s: &String) -> (c: String)
    ensures
        c@ == s@,
{
    s.clone()
}

fn copy_odra_error(e: &OdraError) -> (c: OdraError)
    ensures
        c@ == e@,
{
    match e {
        OdraError::ExecutionError { code, message } => OdraError::ExecutionError {
            code: *code,
            message: copy_string(message),
        },
        OdraError::VmError(VmError::InvalidContext) => OdraError::VmError(VmError::InvalidContext),
        OdraError::VmError(VmError::NoSuchMethod(name)) => OdraError::VmError(
            VmError::NoSuchMethod(copy_string(name)),
        ),
        OdraError::VmError(VmError::Other(text)) => OdraError::VmError(VmError::Other(copy_string(text))),
    }
}

/// The deploy hash made from the value `seed` of the call counter: its low byte, then its
/// second byte, then zeros.
pub open spec fn deploy_hash_of(seed: u32) -> Seq<u8> {
    Seq::new(32, |i: int| if i == 0 { (seed % 256) as u8 } else if i == 1 { ((seed / 256) % 256) as u8 } else { 0u8 })
}

/// The part of the test environment's state that decides what happens next.
pub struct TestEnvState {
    pub accounts: Vec<CasperAddress>,
    pub active_account: CasperAddress,
    pub block_time: u64,
    pub calls_counter: u32,
    pub error: Option<OdraError>,
}

/// The account hash of the ed25519 key pair whose secret key is 32 bytes of `seed`, as
/// `casper_types` derives it.
pub uninterp spec fn ed25519_account_hash(seed: u8) -> Seq<u8>;

/// The account hash of the ed25519 key pair whose secret key is 32 bytes of `seed`:
/// `casper_types::SecretKey::ed25519_from_bytes`, then `PublicKey::from`, then
/// `account::AccountHash::from`. Claimed only that the result is the one named by
/// `ed25519_account_hash` for that seed; the key is built from exactly 32 bytes, the one
/// length `ed25519_from_bytes` accepts, so it does not fail.
#[verifier::external_body]
fn genesis_account_hash(seed: u8) -> (hash: [u8; 32])
    ensures
        hash@ == ed25519_account_hash(seed),
{
    let secret_key = casper_types::SecretKey::ed25519_from_bytes([seed; 32]).unwrap();
    let public_key = casper_types::PublicKey::from(&secret_key);
    casper_types::account::AccountHash::from(&public_key).value()
}

/// How many accounts the test environment funds at genesis.
pub const GENESIS_ACCOUNT_COUNT: u8 = 20;

/// The accounts funded at genesis, in order: the `i`-th is the account of the ed25519 key
/// whose secret key is 32 bytes of `i`.
pub fn genesis_accounts() -> (accounts: Vec<CasperAddress>)
    ensures
        accounts@.len() == GENESIS_ACCOUNT_COUNT,
        forall|i: int|
            0 <= i < GENESIS_ACCOUNT_COUNT ==> (#[trigger] accounts@[i] matches CasperAddress::Account(
                h,
            ) && h.0@ == ed25519_account_hash(i as u8)),
{
    let mut accounts: Vec<CasperAddress> = Vec::new();
    let mut seed: u8 = 0;
    while seed < GENESIS_ACCOUNT_COUNT
        invariant
            seed <= GENESIS_ACCOUNT_COUNT,
            accounts@.len() == seed,
            forall|i: int|
                0 <= i < seed ==> (#[trigger] accounts@[i] matches CasperAddress::Account(h)
                    && h.0@ == ed25519_account_hash(i as u8)),
        decreases GENESIS_ACCOUNT_COUNT - seed,
    {
        let hash = genesis_account_hash(seed);
        accounts.push(CasperAddress::Account(AccountHash::new(hash)));
        seed = seed + 1;
    }
    accounts
}

impl TestEnvState {
    /// A fresh state over the genesis `accounts`: the first one acts, no call has been made,
    /// the block time is zero and no error is recorded.
    pub fn new(accounts: Vec<CasperAddress>) -> (state: Self)
        requires
            accounts@.len() > 0,
        ensures
            state.accounts@ == accounts@,
            state.active_account == accounts@[0],
            state.block_time == 0,
            state.calls_counter == 0,
            state.error is None,
    {
        let active_account = accounts[0];
        TestEnvState { accounts, active_account, block_time: 0, calls_counter: 0, error: None }
    }

    /// Makes `account` the one that sends the next deploys.
    pub fn set_caller(&mut self, account: CasperAddress)
        ensures
            final(self).active_account == account,
            final(self).accounts@ == old(self).accounts@,
            final(self).block_time == old(self).block_time,
            final(self).calls_counter == old(self).calls_counter,
            final(self).error == old(self).error,
    {
        self.active_account = account;
    }

    /// Makes `account` the one that sends the next deploys.
    pub fn as_account(&mut self, account: CasperAddress)
        ensures
            final(self).active_account == account,
            final(self).accounts@ == old(self).accounts@,
            final(self).block_time == old(self).block_time,
            final(self).calls_counter == old(self).calls_counter,
            final(self).error == old(self).error,
    {
        self.active_account = account;
    }

    /// The `n`-th genesis account.
    pub fn get_account(&self, n: usize) -> (account: CasperAddress)
        requires
            n < self.accounts@.len(),
        ensures
            account == self.accounts@[n as int],
    {
        self.accounts[n]
    }

    /// The account hash of the acting account; `None` where a contract was made to act.
    pub fn active_account_hash(&self) -> (hash: Option<AccountHash>)
        ensures
            match self.active_account {
                CasperAddress::Account(h) => hash == Some(h),
                CasperAddress::Contract(_) => hash is None,
            },
    {
        match self.active_account.as_account_hash() {
            Some(hash) => Some(*hash),
            None => None,
        }
    }

    /// The deploy hash of the next deploy; each call advances the counter by one.
    pub fn next_hash(&mut self) -> (hash: [u8; 32])
        requires
            old(self).calls_counter < u32::MAX,
        ensures
            hash@ == deploy_hash_of(old(self).calls_counter),
            final(self).calls_counter == old(self).calls_counter + 1,
            final(self).accounts@ == old(self).accounts@,
            final(self).active_account == old(self).active_account,
            final(self).block_time == old(self).block_time,
            final(self).error == old(self).error,
    {
        let seed = self.calls_counter;
        self.calls_counter = self.calls_counter + 1;
        let mut hash = [0u8; 32];
        hash[0] = (seed % 256) as u8;
        hash[1] = ((seed / 256) % 256) as u8;
        proof {
            assert(hash@ =~= deploy_hash_of(seed));
        }
        hash
    }

    /// After a contract is deployed, the first genesis account acts again.
    pub fn finish_deploy(&mut self)
        requires
            old(self).accounts@.len() > 0,
        ensures
            final(self).active_account == old(self).accounts@[0],
            final(self).accounts@ == old(self).accounts@,
            final(self).block_time == old(self).block_time,
            final(self).calls_counter == old(self).calls_counter,
            final(self).error == old(self).error,
    {
        self.active_account = self.accounts[0];
    }

    /// Before a call: the error of the previous call is forgotten.
    pub fn begin_call(&mut self)
        ensures
            final(self).error is None,
            final(self).accounts@ == old(self).accounts@,
            final(self).active_account == old(self).active_account,
            final(self).block_time == old(self).block_time,
            final(self).calls_counter == old(self).calls_counter,
    {
        self.error = None;
    }

    /// After a call: records the engine's failure, if any, as the call's error, and says
    /// whether the call's result is to be read (only where it succeeded and has one).
    pub fn finish_call(&mut self, failure: Option<EngineError>, has_return: bool) -> (read_result: bool)
        ensures
            read_result == (failure is None && has_return),
            match failure {
                Some(err) => final(self).error matches Some(e) && e@ == odra_error_of(err),
                None => final(self).error == old(self).error,
            },
            final(self).accounts@ == old(self).accounts@,
            final(self).active_account == old(self).active_account,
            final(self).block_time == old(self).block_time,
            final(self).calls_counter == old(self).calls_counter,
    {
        match failure {
            Some(err) => {
                self.error = Some(parse_error(err));
                false
            },
            None => has_return,
        }
    }

    /// The error of the last call, if it failed.
    pub fn get_error(&self) -> (error: Option<OdraError>)
        ensures
            match self.error {
                Some(e) => error matches Some(c) && c@ == e@,
                None => error is None,
            },
    {
        match &self.error {
            Some(e) => Some(copy_odra_error(e)),
            None => None,
        }
    }
}

/// Two deploy hashes made from different counter values below 65536 differ.
pub proof fn lemma_deploy_hashes_differ(a: u32, b: u32)
    requires
        a < 65536,
        b < 65536,
        a != b,
    ensures
        deploy_hash_of(a) != deploy_hash_of(b),
{
    let ha = deploy_hash_of(a);
    let hb = deploy_hash_of(b);
    if ha == hb {
        assert(ha[0] == hb[0]);
        assert(ha[1] == hb[1]);
        assert(a == 256 * (a / 256) + a % 256);
        assert(b == 256 * (b / 256) + b % 256);
    }
}

/// `len` read as a signed 32-bit integer, as `len as i32` does.
pub open spec fn signed_len(len: u32) -> int {
    if len < 0x8000_0000 {
        len as int
    } else {
        len - 0x1_0000_0000
    }
}

/// The absolute position of event `index` among `len` events: a non-negative index counts
/// from the first event, a negative one from the last, and an index outside the events has
/// none. The length is compared as a signed 32-bit integer, and the magnitude of the least
/// index is taken with wrap-around, as the computation does.
pub open spec fn absolute_position(len: u32, index: i32) -> Option<u32> {
    if index < 0 {
        let magnitude: int = if index == i32::MIN {
            i32::MIN as int
        } else {
            -index
        };
        if magnitude > signed_len(len) {
            None
        } else if index == i32::MIN {
            Some((len - 0x8000_0000) as u32)
        } else {
            Some((len + index) as u32)
        }
    } else if index >= signed_len(len) {
        None
    } else {
        Some(index as u32)
    }
}

/// Calls `odra_core::utils::event_absolute_position`. Claimed, as its source shows: the
/// result is `absolute_position(len, index)`. Its source panics on the least index when fewer
/// than 2^31 events exist, which `requires` leaves out.
#[verifier::external_body]
fn event_absolute_position(len: u32, index: i32) -> (position: Option<u32>)
    requires
        !(index == i32::MIN && len < 0x8000_0000),
    ensures
        position == absolute_position(len, index),
{
    odra_core::utils::event_absolute_position(len, index)
}

/// An event position, where there is one, lies among the events.
pub proof fn lemma_event_position_within(len: u32, index: i32)
    requires
        !(index == i32::MIN && len < 0x8000_0000),
    ensures
        absolute_position(len, index) matches Some(p) ==> p < len,
{
}

/// The position of event `index` among `events_length` events; an index outside them is out
/// of bounds.
pub fn event_position(events_length: u32, index: i32) -> (position: Result<u32, EventError>)
    requires
        !(index == i32::MIN && events_length < 0x8000_0000),
    ensures
        match absolute_position(events_length, index) {
            Some(p) => position == Ok::<u32, EventError>(p),
            None => position == Err::<u32, EventError>(EventError::IndexOutOfBounds),
        },
{
    match event_absolute_position(events_length, index) {
        Some(p) => Ok(p),
        None => Err(EventError::IndexOutOfBounds),
    }
}

/// The dictionary item name under which the event at `position` is stored: its decimal form.
pub fn event_key(position: u32) -> (key: String)
    ensures
        key@ == decimal_text(position as nat),
{
    decimal_string(position)
}

/// The event read from the dictionary, or out of bounds where no item was found.
pub fn event_from_query(item: Option<Vec<u8>>) -> (event: Result<Vec<u8>, EventError>)
    ensures
        match item {
            Some(bytes) => event matches Ok(e) && e@ == bytes@,
            None => event == Err::<Vec<u8>, EventError>(EventError::IndexOutOfBounds),
        },
{
    match item {
        Some(bytes) => Ok(bytes),
        None => Err(EventError::IndexOutOfBounds),
    }
}

} // verus!
